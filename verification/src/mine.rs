use crate::abi::{abi_encode_zk_state, zk_state_encoding};
use vstd::prelude::*;

verus! {

/// How many guesses the mine program reads and plays.
pub const MAX_TRIES: u32 = 10;

/// The records one guess adds to the mine program's state: one per bomb, in
/// bomb order, each `(x, y, miss)` with `miss` true when that bomb is not on
/// the guessed cell.
pub open spec fn try_records(bombs: Seq<(u32, u32)>, guess: (u32, u32)) -> Seq<(u32, u32, bool)> {
    Seq::new(bombs.len(), |i: int| (guess.0, guess.1, bombs[i] != guess))
}

/// The bombs the mine program places: `count` bombs, all on cell `(1, 2)`.
pub fn mine_bombs(count: usize) -> (bombs: Vec<(u32, u32)>)
    ensures
        bombs@ == Seq::new(count as nat, |i: int| (1u32, 2u32)),
{
    let mut bombs: Vec<(u32, u32)> = Vec::new();
    let mut i: usize = 0;
    while i < count
        invariant
            i <= count,
            bombs@ == Seq::new(i as nat, |k: int| (1u32, 2u32)),
        decreases count - i,
    {
        bombs.push((1, 2));
        i += 1;
        assert(bombs@ =~= Seq::new(i as nat, |k: int| (1u32, 2u32)));
    }
    bombs
}

/// Plays one guess of the mine program against every bomb: for each bomb in
/// order it records `(x, y, miss)` and returns the encoded state
/// `(bombs, records so far)` that the program commits after that record.
pub fn mine_try(
    bombs: &Vec<(u32, u32)>,
    results: &mut Vec<(u32, u32, bool)>,
    guess: (u32, u32),
) -> (commits: Vec<Vec<u8>>)
    ensures
        final(results)@ == old(results)@ + try_records(bombs@, guess),
        commits@.len() == bombs@.len(),
        forall|i: int|
            0 <= i < bombs@.len() ==> #[trigger] commits@[i]@ == zk_state_encoding(
                bombs@,
                final(results)@.take(old(results)@.len() + i + 1),
            ),
{
    let ghost start = results@;
    let mut commits: Vec<Vec<u8>> = Vec::new();
    let mut j: usize = 0;
    while j < bombs.len()
        invariant
            j <= bombs.len(),
            results@ == start + try_records(bombs@, guess).take(j as int),
            commits@.len() == j,
            forall|i: int|
                0 <= i < j ==> #[trigger] commits@[i]@ == zk_state_encoding(
                    bombs@,
                    results@.take(start.len() + i + 1),
                ),
        decreases bombs.len() - j,
    {
        let bomb = bombs[j];
        let miss = !(bomb.0 == guess.0 && bomb.1 == guess.1);
        let ghost before = results@;
        results.push((guess.0, guess.1, miss));
        assert(try_records(bombs@, guess)[j as int] == (guess.0, guess.1, miss));
        assert(results@ =~= start + try_records(bombs@, guess).take(j + 1));
        let ghost commits_before = commits@;
        commits.push(abi_encode_zk_state(bombs, results));
        assert(results@.take(start.len() + j + 1) =~= results@);
        assert forall|i: int| 0 <= i < j + 1 implies #[trigger] commits@[i]@ == zk_state_encoding(
            bombs@,
            results@.take(start.len() + i + 1),
        ) by {
            if i < j {
                assert(commits@[i] == commits_before[i]);
                assert(results@.take(start.len() + i + 1) =~= before.take(start.len() + i + 1));
            }
        }
        j += 1;
    }
    assert(try_records(bombs@, guess).take(bombs.len() as int) =~= try_records(bombs@, guess));
    commits
}

/// One try records, for the `i`-th bomb, the guessed cell and a miss flag
/// that is false exactly when the bomb lies on the guessed cell (both
/// coordinates equal).
pub proof fn lemma_try_record_flags(bombs: Seq<(u32, u32)>, guess: (u32, u32))
    ensures
        try_records(bombs, guess).len() == bombs.len(),
        forall|i: int|
            0 <= i < bombs.len() ==> (#[trigger] try_records(bombs, guess)[i]).0 == guess.0
                && try_records(bombs, guess)[i].1 == guess.1 && (try_records(bombs, guess)[i].2
                <==> !(bombs[i].0 == guess.0 && bombs[i].1 == guess.1)),
{
}

} // verus!
