use mining::game::{
    check_game_input, generate_presebntation_commitments, guesses_hit_bomb, max_bombs,
    winning_commitment, GameInputError,
};
use mining::prover_input::FIELD_SIZE;
use tiny_keccak::Hasher;

fn keccak(data: &[u8]) -> [u8; 32] {
    let mut hasher = tiny_keccak::Keccak::v256();
    hasher.update(data);
    let mut out = [0u8; 32];
    hasher.finalize(&mut out);
    out
}

fn word(v: u64) -> Vec<u8> {
    let mut w = vec![0u8; 24];
    w.extend_from_slice(&v.to_be_bytes());
    w
}

/// The ABI encoding of `GameCommitment { user_guesses, result }`, written out
/// word by word.
fn expected_encoding(guesses: &[(u8, u8)], result: bool) -> Vec<u8> {
    let mut out = Vec::new();
    out.extend(word(0x20));
    out.extend(word(0x40));
    out.extend(word(result as u64));
    out.extend(word(guesses.len() as u64));
    for (x, y) in guesses {
        out.extend(word(*x as u64));
        out.extend(word(*y as u64));
    }
    out
}

#[test]
fn field_of_size_ten_holds_three_bombs() {
    assert_eq!(max_bombs(FIELD_SIZE), 3);
}

#[test]
fn max_bombs_is_integer_square_root() {
    let cases = [(0u8, 0u8), (1, 1), (3, 1), (4, 2), (8, 2), (9, 3), (15, 3), (16, 4), (255, 15)];
    for (size, limit) in cases {
        assert_eq!(max_bombs(size), limit, "size {}", size);
    }
}

#[test]
fn too_many_bombs_is_rejected() {
    let bombs = vec![(0, 0), (1, 1)];
    let guesses = vec![(2, 2)];
    assert_eq!(
        check_game_input(3, &bombs, &guesses),
        Err(GameInputError::TooManyBombs)
    );
    assert_eq!(check_game_input(4, &bombs, &guesses), Ok(()));
}

#[test]
fn out_of_bounds_bomb_is_rejected() {
    let bombs = vec![(4, 0)];
    let guesses = vec![(0, 0)];
    assert_eq!(
        check_game_input(4, &bombs, &guesses),
        Err(GameInputError::OutOfBounds)
    );
}

#[test]
fn out_of_bounds_guess_is_rejected() {
    let bombs = vec![(0, 0), (1, 1)];
    let guesses = vec![(0, 1), (1, 9)];
    assert_eq!(
        check_game_input(9, &bombs, &guesses),
        Err(GameInputError::OutOfBounds)
    );
}

#[test]
fn only_paired_guesses_are_bounds_checked() {
    // One bomb: only the first guess is paired with a bomb and checked.
    let bombs = vec![(1, 1)];
    let guesses = vec![(0, 0), (200, 200)];
    assert_eq!(check_game_input(4, &bombs, &guesses), Ok(()));
}

#[test]
fn empty_field_without_bombs_is_accepted() {
    assert_eq!(check_game_input(0, &vec![], &vec![(5, 5)]), Ok(()));
    assert_eq!(
        check_game_input(0, &vec![(0, 0)], &vec![]),
        Err(GameInputError::TooManyBombs)
    );
}

#[test]
fn hit_detection() {
    let bombs = vec![(1, 2), (3, 4)];
    assert!(guesses_hit_bomb(&bombs, &vec![(0, 0), (3, 4)]));
    assert!(!guesses_hit_bomb(&bombs, &vec![(2, 1), (4, 3)]));
    assert!(!guesses_hit_bomb(&bombs, &vec![]));
    assert!(!guesses_hit_bomb(&vec![], &vec![(1, 2)]));
}

#[test]
fn won_game_commits_to_encoding_with_true_result() {
    let bombs = vec![(1, 2), (3, 4), (5, 6)];
    let guesses = vec![(0, 0), (9, 9), (7, 1)];
    let out = generate_presebntation_commitments(10, &bombs, &guesses).unwrap();
    assert_eq!(out, keccak(&expected_encoding(&guesses, true)));
}

#[test]
fn lost_game_commits_to_encoding_with_false_result() {
    let bombs = vec![(1, 2), (3, 4), (5, 6)];
    let guesses = vec![(0, 0), (3, 4), (7, 1)];
    let out = generate_presebntation_commitments(10, &bombs, &guesses).unwrap();
    assert_eq!(out, keccak(&expected_encoding(&guesses, false)));
}

#[test]
fn game_program_rejects_invalid_input() {
    let bombs = vec![(1, 2), (3, 4), (5, 6), (7, 8)];
    assert_eq!(
        generate_presebntation_commitments(10, &bombs, &vec![(0, 0)]),
        Err(GameInputError::TooManyBombs)
    );
    assert_eq!(
        generate_presebntation_commitments(10, &vec![(10, 0)], &vec![(0, 0)]),
        Err(GameInputError::OutOfBounds)
    );
}

#[test]
fn winning_commitment_hashes_twice() {
    let guesses = vec![(6, 6), (7, 4), (8, 9), (9, 9)];
    let once = keccak(&expected_encoding(&guesses, true));
    assert_eq!(winning_commitment(&guesses), keccak(&once));
    assert_ne!(winning_commitment(&guesses), once);
}

#[test]
fn won_game_output_matches_server_commitment() {
    let bombs = vec![(1, 1), (2, 2), (3, 3)];
    let guesses = vec![(6, 6), (7, 4), (8, 9), (9, 9)];
    let out = generate_presebntation_commitments(10, &bombs, &guesses).unwrap();
    assert_eq!(keccak(&out), winning_commitment(&guesses));
}

#[test]
fn lost_game_output_does_not_match_server_commitment() {
    let bombs = vec![(1, 1), (2, 2), (3, 3)];
    let guesses = vec![(6, 6), (2, 2)];
    let out = generate_presebntation_commitments(10, &bombs, &guesses).unwrap();
    assert_ne!(keccak(&out), winning_commitment(&guesses));
}

#[test]
fn empty_guesses_encode_an_empty_array() {
    let out = generate_presebntation_commitments(10, &vec![], &vec![]).unwrap();
    assert_eq!(out, keccak(&expected_encoding(&[], true)));
    assert_eq!(expected_encoding(&[], true).len(), 128);
}
