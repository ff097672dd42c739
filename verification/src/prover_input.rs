use crate::game::{game_input_check, pair_out_of_bounds, some_pair_out_of_bounds, too_many_bombs};
use rand::Rng;
use vstd::prelude::*;

verus! {

/// The side length of the mine field the prover sets up. The number of bombs
/// the game program allows is the integer square root of the size: here 3.
pub const FIELD_SIZE: u8 = 10;

/// What the prover writes to the game program's input, in order: the field
/// size, the bomb locations, then the player's guesses.
pub struct MineGameInput {
    pub field_size: u8,
    pub bombs: Vec<(u8, u8)>,
    pub guesses: Vec<(u8, u8)>,
}

/// The bomb locations made from raw coordinate bytes: the `i`-th bomb is
/// `(xs[i] % FIELD_SIZE, ys[i] % FIELD_SIZE)`.
pub open spec fn bomb_locations_from(xs: Seq<u8>, ys: Seq<u8>) -> Seq<(u8, u8)> {
    Seq::new(xs.len(), |i: int| ((xs[i] % FIELD_SIZE) as u8, (ys[i] % FIELD_SIZE) as u8))
}

/// Three bytes drawn from `rand::thread_rng()` with `Rng::fill`.
///
/// Trusted: nothing is claimed of the bytes; they are random.
#[verifier::external_body]
fn random_coordinates() -> (bytes: [u8; 3]) {
    let mut bytes = [0u8; 3];
    rand::thread_rng().fill(&mut bytes);
    bytes
}

/// Places one bomb per pair of coordinate bytes, reduced onto the field.
pub fn bomb_locations(xs: [u8; 3], ys: [u8; 3]) -> (bombs: Vec<(u8, u8)>)
    ensures
        bombs@ == bomb_locations_from(xs@, ys@),
{
    let mut bombs: Vec<(u8, u8)> = Vec::new();
    let mut i: usize = 0;
    while i < 3
        invariant
            i <= 3,
            bombs@ == bomb_locations_from(xs@, ys@).take(i as int),
        decreases 3 - i,
    {
        bombs.push((xs[i] % FIELD_SIZE, ys[i] % FIELD_SIZE));
        i += 1;
        assert(bombs@ =~= bomb_locations_from(xs@, ys@).take(i as int));
    }
    assert(bomb_locations_from(xs@, ys@).take(3) =~= bomb_locations_from(xs@, ys@));
    bombs
}

/// The input the prover hands to the game program for the given guesses:
/// the field size, three bombs at random cells of the field, and the
/// guesses unchanged.
pub fn mine_game_input(guesses: Vec<(u8, u8)>) -> (input: MineGameInput)
    ensures
        input.field_size == FIELD_SIZE,
        input.guesses@ == guesses@,
        exists|xs: Seq<u8>, ys: Seq<u8>|
            xs.len() == 3 && ys.len() == 3 && input.bombs@ == #[trigger] bomb_locations_from(
                xs,
                ys,
            ),
{
    let xs = random_coordinates();
    let ys = random_coordinates();
    let bombs = bomb_locations(xs, ys);
    assert(xs@.len() == 3 && ys@.len() == 3 && bombs@ == bomb_locations_from(xs@, ys@));
    MineGameInput { field_size: FIELD_SIZE, bombs, guesses }
}

/// Whatever bombs the prover draws, the game program accepts its input
/// exactly when each guess that is paired with a bomb (the first three)
/// lies on the field.
pub proof fn lemma_prover_input_accepted(xs: Seq<u8>, ys: Seq<u8>, guesses: Seq<(u8, u8)>)
    requires
        xs.len() == 3,
        ys.len() == 3,
    ensures
        game_input_check(FIELD_SIZE, bomb_locations_from(xs, ys), guesses) is Ok <==> (forall|
            i: int,
        |
            0 <= i < 3 && i < guesses.len() ==> #[trigger] guesses[i].0 < FIELD_SIZE
                && guesses[i].1 < FIELD_SIZE),
{
    let bombs = bomb_locations_from(xs, ys);
    assert(bombs.len() == 3);
    assert(!too_many_bombs(FIELD_SIZE, bombs.len())) by {
        assert(3nat * 3nat == 9nat);
    }
    if forall|i: int|
        0 <= i < 3 && i < guesses.len() ==> #[trigger] guesses[i].0 < FIELD_SIZE && guesses[i].1
            < FIELD_SIZE {
        assert(!some_pair_out_of_bounds(FIELD_SIZE, bombs, guesses)) by {
            assert forall|i: int|
                0 <= i < bombs.len() && 0 <= i < guesses.len() implies !#[trigger] pair_out_of_bounds(
                FIELD_SIZE,
                bombs[i],
                guesses[i],
            ) by {
                assert(guesses[i].0 < FIELD_SIZE && guesses[i].1 < FIELD_SIZE);
            }
        }
    } else {
        let i = choose|i: int|
            !(0 <= i < 3 && i < guesses.len() ==> #[trigger] guesses[i].0 < FIELD_SIZE
                && guesses[i].1 < FIELD_SIZE);
        assert(pair_out_of_bounds(FIELD_SIZE, bombs[i], guesses[i]));
    }
}

} // verus!
