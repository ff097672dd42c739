use crate::abi::{abi_encode_game_commitment, abi_word, game_commitment_encoding};
use crate::keccak::{keccak256, keccak256_digest};
use vstd::prelude::*;

verus! {

/// The guesses a player submits for one game: the field cells `(x, y)` that
/// the player opens, in order.
pub struct Guesses {
    pub guesses: Vec<(u8, u8)>,
    pub game_id: u128,
}

/// Why the game program rejects its input.
#[derive(Debug, Clone, Copy, PartialEq, Eq, Structural)]
pub enum GameInputError {
    /// More bombs than the integer square root of the field size.
    TooManyBombs,
    /// A bomb or a guess that is checked lies outside the field.
    OutOfBounds,
}

/// `count` bombs exceed the limit of a field of `size` cells. The limit is
/// the integer square root of `size`, so it is exceeded exactly when
/// `count * count > size`.
pub open spec fn too_many_bombs(size: u8, count: nat) -> bool {
    count * count > size
}

/// One bomb/guess pair has a coordinate outside `0..size`.
pub open spec fn pair_out_of_bounds(size: u8, bomb: (u8, u8), guess: (u8, u8)) -> bool {
    bomb.0 >= size || bomb.1 >= size || guess.0 >= size || guess.1 >= size
}

/// The bounds check walks bombs and guesses side by side, so it looks at the
/// first `min(bombs.len(), guesses.len())` pairs only.
pub open spec fn some_pair_out_of_bounds(
    size: u8,
    bombs: Seq<(u8, u8)>,
    guesses: Seq<(u8, u8)>,
) -> bool {
    exists|i: int|
        0 <= i < bombs.len() && 0 <= i < guesses.len() && #[trigger] pair_out_of_bounds(
            size,
            bombs[i],
            guesses[i],
        )
}

/// What the game program decides about its input before it plays.
pub open spec fn game_input_check(
    size: u8,
    bombs: Seq<(u8, u8)>,
    guesses: Seq<(u8, u8)>,
) -> Result<(), GameInputError> {
    if too_many_bombs(size, bombs.len()) {
        Err(GameInputError::TooManyBombs)
    } else if some_pair_out_of_bounds(size, bombs, guesses) {
        Err(GameInputError::OutOfBounds)
    } else {
        Ok(())
    }
}

/// Some guess opens a cell that holds a bomb.
pub open spec fn some_guess_hits(bombs: Seq<(u8, u8)>, guesses: Seq<(u8, u8)>) -> bool {
    exists|i: int, j: int|
        0 <= i < guesses.len() && 0 <= j < bombs.len() && #[trigger] guesses[i]
            == #[trigger] bombs[j]
}

/// The public output of the game program: the Keccak-256 digest of the
/// encoded game commitment, whose result is "won" when no guess hits a bomb.
pub open spec fn game_public_output(bombs: Seq<(u8, u8)>, guesses: Seq<(u8, u8)>) -> Seq<u8> {
    keccak256(game_commitment_encoding(guesses, !some_guess_hits(bombs, guesses)))
}

/// The public-input commitment the server expects for a won game: the
/// digest of the digest of the encoded commitment with result "won".
pub open spec fn winning_public_input_commitment(guesses: Seq<(u8, u8)>) -> Seq<u8> {
    keccak256(keccak256(game_commitment_encoding(guesses, true)))
}

/// The most bombs a field of `size` cells may hold: the integer square root
/// of `size`.
pub fn max_bombs(size: u8) -> (limit: u8)
    ensures
        limit * limit <= size,
        size < (limit + 1) * (limit + 1),
{
    let mut r: u8 = 0;
    let mut next_square: u32 = 1;
    while next_square <= size as u32
        invariant
            r * r <= size,
            next_square == (r + 1) * (r + 1),
            r <= 15,
        decreases 16 - r,
    {
        assert(r + 1 <= 15) by (nonlinear_arith)
            requires
                (r + 1) * (r + 1) <= 255,
        ;
        assert((r + 2) * (r + 2) == (r + 1) * (r + 1) + 2 * (r + 1) + 1) by (nonlinear_arith);
        r = r + 1;
        next_square = next_square + 2 * (r as u32) + 1;
    }
    r
}

proof fn lemma_limit_exceeded(size: int, limit: int, count: int)
    requires
        0 <= limit,
        0 <= count,
        limit * limit <= size,
        size < (limit + 1) * (limit + 1),
    ensures
        (count > limit) == (count * count > size),
{
    if count > limit {
        assert(count * count >= (limit + 1) * (limit + 1)) by (nonlinear_arith)
            requires
                count >= limit + 1,
                limit >= 0,
        ;
    } else {
        assert(count * count <= limit * limit) by (nonlinear_arith)
            requires
                count <= limit,
                count >= 0,
        ;
    }
}

/// Checks the program's input as the game program does before it plays:
/// first the number of bombs against the field size, then the coordinates of
/// the bomb/guess pairs taken side by side.
pub fn check_game_input(size: u8, stored_bombs: &Vec<(u8, u8)>, user_guesses: &Vec<(u8, u8)>) -> (checked: Result<(), GameInputError>)
    ensures
        checked == game_input_check(size, stored_bombs@, user_guesses@),
{
    let limit = max_bombs(size);
    proof {
        lemma_limit_exceeded(size as int, limit as int, stored_bombs.len() as int);
    }
    if stored_bombs.len() > limit as usize {
        return Err(GameInputError::TooManyBombs);
    }
    let n = if stored_bombs.len() < user_guesses.len() {
        stored_bombs.len()
    } else {
        user_guesses.len()
    };
    let mut i: usize = 0;
    while i < n
        invariant
            n <= stored_bombs.len(),
            n <= user_guesses.len(),
            n == stored_bombs.len() || n == user_guesses.len(),
            i <= n,
            !too_many_bombs(size, stored_bombs@.len()),
            forall|k: int|
                0 <= k < i ==> !#[trigger] pair_out_of_bounds(
                    size,
                    stored_bombs@[k],
                    user_guesses@[k],
                ),
        decreases n - i,
    {
        let bomb = stored_bombs[i];
        let guess = user_guesses[i];
        if bomb.0 >= size || bomb.1 >= size || guess.0 >= size || guess.1 >= size {
            assert(pair_out_of_bounds(size, stored_bombs@[i as int], user_guesses@[i as int]));
            return Err(GameInputError::OutOfBounds);
        }
        i += 1;
    }
    Ok(())
}

/// Whether some guess opens a cell that holds a bomb.
pub fn guesses_hit_bomb(stored_bombs: &Vec<(u8, u8)>, user_guesses: &Vec<(u8, u8)>) -> (hit: bool)
    ensures
        hit == some_guess_hits(stored_bombs@, user_guesses@),
{
    let mut i: usize = 0;
    while i < user_guesses.len()
        invariant
            i <= user_guesses.len(),
            forall|a: int, b: int|
                0 <= a < i && 0 <= b < stored_bombs.len() ==> #[trigger] user_guesses@[a]
                    != #[trigger] stored_bombs@[b],
        decreases user_guesses.len() - i,
    {
        let guess = user_guesses[i];
        let mut j: usize = 0;
        while j < stored_bombs.len()
            invariant
                i < user_guesses.len(),
                j <= stored_bombs.len(),
                guess == user_guesses@[i as int],
                forall|b: int| 0 <= b < j ==> guess != #[trigger] stored_bombs@[b],
            decreases stored_bombs.len() - j,
        {
            let bomb = stored_bombs[j];
            if guess.0 == bomb.0 && guess.1 == bomb.1 {
                assert(user_guesses@[i as int] == stored_bombs@[j as int]);
                return true;
            }
            j += 1;
        }
        i += 1;
    }
    false
}

/// The game program: rejects an invalid input as `check_game_input` does,
/// and otherwise returns the Keccak-256 digest of the encoded commitment
/// `(user_guesses, won)`, where the game is won when no guess hits a bomb.
pub fn generate_presebntation_commitments(
    size: u8,
    stored_bombs: &Vec<(u8, u8)>,
    user_guesses: &Vec<(u8, u8)>,
) -> (commitment: Result<[u8; 32], GameInputError>)
    ensures
        match game_input_check(size, stored_bombs@, user_guesses@) {
            Ok(_) => commitment matches Ok(digest) && digest@ == game_public_output(
                stored_bombs@,
                user_guesses@,
            ),
            Err(e) => commitment == Err::<[u8; 32], GameInputError>(e),
        },
{
    match check_game_input(size, stored_bombs, user_guesses) {
        Err(e) => Err(e),
        Ok(()) => {
            let hit = guesses_hit_bomb(stored_bombs, user_guesses);
            let bytes = abi_encode_game_commitment(user_guesses, !hit);
            Ok(keccak256_digest(bytes.as_slice()))
        },
    }
}

/// The public-input commitment the server checks on chain for a won game:
/// the encoded commitment `(guesses, true)` hashed twice.
pub fn winning_commitment(user_guesses: &Vec<(u8, u8)>) -> (commitment: [u8; 32])
    ensures
        commitment@ == winning_public_input_commitment(user_guesses@),
{
    let bytes = abi_encode_game_commitment(user_guesses, true);
    let output = keccak256_digest(bytes.as_slice());
    keccak256_digest(&output)
}

/// For an accepted game in which no guess hits a bomb, the program's public
/// output, hashed once more (as the public input is committed on
/// submission), equals the commitment the server checks for a won game.
pub proof fn lemma_won_game_matches_server_commitment(
    size: u8,
    bombs: Seq<(u8, u8)>,
    guesses: Seq<(u8, u8)>,
)
    requires
        game_input_check(size, bombs, guesses) is Ok,
        !some_guess_hits(bombs, guesses),
    ensures
        keccak256(game_public_output(bombs, guesses)) == winning_public_input_commitment(guesses),
{
}

/// When some guess hits a bomb, the commitment the program hashes differs
/// from the won-game commitment the server hashes (they differ in the result
/// word).
pub proof fn lemma_lost_game_encoding_differs(bombs: Seq<(u8, u8)>, guesses: Seq<(u8, u8)>)
    requires
        some_guess_hits(bombs, guesses),
    ensures
        game_commitment_encoding(guesses, !some_guess_hits(bombs, guesses))
            != game_commitment_encoding(guesses, true),
{
    let lost = game_commitment_encoding(guesses, false);
    let won = game_commitment_encoding(guesses, true);
    vstd::arithmetic::power::lemma_pow0(256);
    assert(abi_word(0)[31] == 0);
    assert(abi_word(1)[31] == 1);
    assert(lost[95] == abi_word(0)[31]);
    assert(won[95] == abi_word(1)[31]);
}

/// A guess hits exactly when the bomb list contains the guessed cell, both
/// coordinates equal: a guess that shares only one coordinate with every
/// bomb is no hit.
pub proof fn lemma_hit_is_cell_membership(bombs: Seq<(u8, u8)>, guesses: Seq<(u8, u8)>)
    ensures
        some_guess_hits(bombs, guesses) <==> exists|i: int|
            0 <= i < guesses.len() && #[trigger] bombs.contains(guesses[i]),
        some_guess_hits(bombs, guesses) <==> exists|i: int, j: int|
            0 <= i < guesses.len() && 0 <= j < bombs.len() && (#[trigger] guesses[i]).0 == (
            #[trigger] bombs[j]).0 && guesses[i].1 == bombs[j].1,
{
    if some_guess_hits(bombs, guesses) {
        let (i, j) = choose|i: int, j: int|
            0 <= i < guesses.len() && 0 <= j < bombs.len() && #[trigger] guesses[i]
                == #[trigger] bombs[j];
        assert(bombs.contains(guesses[i]));
        assert(guesses[i].0 == bombs[j].0 && guesses[i].1 == bombs[j].1);
    }
    if exists|i: int| 0 <= i < guesses.len() && #[trigger] bombs.contains(guesses[i]) {
        let i = choose|i: int| 0 <= i < guesses.len() && #[trigger] bombs.contains(guesses[i]);
        let j = choose|j: int| 0 <= j < bombs.len() && bombs[j] == guesses[i];
        assert(guesses[i] == bombs[j]);
    }
    if exists|i: int, j: int|
        0 <= i < guesses.len() && 0 <= j < bombs.len() && (#[trigger] guesses[i]).0 == (
        #[trigger] bombs[j]).0 && guesses[i].1 == bombs[j].1 {
        let (i, j) = choose|i: int, j: int|
            0 <= i < guesses.len() && 0 <= j < bombs.len() && (#[trigger] guesses[i]).0 == (
            #[trigger] bombs[j]).0 && guesses[i].1 == bombs[j].1;
        assert(guesses[i] == bombs[j]);
    }
}

/// The program commits "lost" as soon as any guess, at any position, opens
/// a bomb's cell, and "won" only when no guess does.
pub proof fn lemma_outcome_follows_every_guess(bombs: Seq<(u8, u8)>, guesses: Seq<(u8, u8)>)
    ensures
        (exists|i: int, j: int|
            0 <= i < guesses.len() && 0 <= j < bombs.len() && (#[trigger] guesses[i]).0 == (
            #[trigger] bombs[j]).0 && guesses[i].1 == bombs[j].1) ==> game_public_output(
            bombs,
            guesses,
        ) == keccak256(game_commitment_encoding(guesses, false)),
        (forall|i: int, j: int|
            0 <= i < guesses.len() && 0 <= j < bombs.len() ==> (#[trigger] guesses[i]).0 != (
            #[trigger] bombs[j]).0 || guesses[i].1 != bombs[j].1) ==> game_public_output(
            bombs,
            guesses,
        ) == keccak256(game_commitment_encoding(guesses, true)),
{
    lemma_hit_is_cell_membership(bombs, guesses);
    if forall|i: int, j: int|
        0 <= i < guesses.len() && 0 <= j < bombs.len() ==> (#[trigger] guesses[i]).0 != (
        #[trigger] bombs[j]).0 || guesses[i].1 != bombs[j].1 {
        assert(!some_guess_hits(bombs, guesses));
    }
}

/// The input check: with `r` the integer square root of `size`, more than
/// `r` bombs are rejected as too many; otherwise the input is rejected as
/// out of bounds exactly when some bomb/guess pair taken side by side has a
/// coordinate (either coordinate of the bomb or of the guess) outside
/// `0..size`, and accepted otherwise.
pub proof fn lemma_input_check_rules(
    size: u8,
    bombs: Seq<(u8, u8)>,
    guesses: Seq<(u8, u8)>,
    r: nat,
)
    requires
        r * r <= size,
        size < (r + 1) * (r + 1),
    ensures
        bombs.len() > r ==> game_input_check(size, bombs, guesses) == Err::<(), GameInputError>(
            GameInputError::TooManyBombs,
        ),
        bombs.len() <= r ==> (game_input_check(size, bombs, guesses) == Err::<(), GameInputError>(
            GameInputError::OutOfBounds,
        ) <==> exists|i: int|
            0 <= i < bombs.len() && 0 <= i < guesses.len() && ((#[trigger] bombs[i]).0 >= size
                || bombs[i].1 >= size || guesses[i].0 >= size || guesses[i].1 >= size)),
        bombs.len() <= r ==> (game_input_check(size, bombs, guesses) == Ok::<(), GameInputError>(())
            <==> forall|i: int|
            0 <= i < bombs.len() && 0 <= i < guesses.len() ==> (#[trigger] bombs[i]).0 < size
                && bombs[i].1 < size && guesses[i].0 < size && guesses[i].1 < size),
{
    lemma_limit_exceeded(size as int, r as int, bombs.len() as int);
    if exists|i: int|
        0 <= i < bombs.len() && 0 <= i < guesses.len() && ((#[trigger] bombs[i]).0 >= size
            || bombs[i].1 >= size || guesses[i].0 >= size || guesses[i].1 >= size) {
        let i = choose|i: int|
            0 <= i < bombs.len() && 0 <= i < guesses.len() && ((#[trigger] bombs[i]).0 >= size
                || bombs[i].1 >= size || guesses[i].0 >= size || guesses[i].1 >= size);
        assert(pair_out_of_bounds(size, bombs[i], guesses[i]));
    }
    if some_pair_out_of_bounds(size, bombs, guesses) {
        let i = choose|i: int|
            0 <= i < bombs.len() && 0 <= i < guesses.len() && #[trigger] pair_out_of_bounds(
                size,
                bombs[i],
                guesses[i],
            );
        assert(bombs[i].0 >= size || bombs[i].1 >= size || guesses[i].0 >= size || guesses[i].1
            >= size);
    }
}

} // verus!
