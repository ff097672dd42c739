use mining::game::{check_game_input, GameInputError};
use mining::prover_input::{bomb_locations, mine_game_input, FIELD_SIZE};

#[test]
fn bombs_are_reduced_onto_the_field() {
    assert_eq!(
        bomb_locations([12, 3, 250], [0, 9, 10]),
        vec![(2, 0), (3, 9), (0, 0)]
    );
}

#[test]
fn prover_input_has_three_bombs_on_the_field() {
    let guesses = vec![(0, 0), (1, 1), (2, 2), (3, 3), (2, 4), (5, 4), (6, 6), (7, 4), (8, 9), (9, 9)];
    for _ in 0..50 {
        let input = mine_game_input(guesses.clone());
        assert_eq!(input.field_size, FIELD_SIZE);
        assert_eq!(input.guesses, guesses);
        assert_eq!(input.bombs.len(), 3);
        for (x, y) in &input.bombs {
            assert!(*x < FIELD_SIZE && *y < FIELD_SIZE);
        }
        assert_eq!(check_game_input(input.field_size, &input.bombs, &input.guesses), Ok(()));
    }
}

#[test]
fn prover_input_with_guess_off_the_field_is_rejected() {
    let input = mine_game_input(vec![(0, 0), (10, 1)]);
    assert_eq!(
        check_game_input(input.field_size, &input.bombs, &input.guesses),
        Err(GameInputError::OutOfBounds)
    );
    // The fourth guess is not paired with a bomb, so it is not checked.
    let input = mine_game_input(vec![(0, 0), (1, 1), (2, 2), (99, 99)]);
    assert_eq!(check_game_input(input.field_size, &input.bombs, &input.guesses), Ok(()));
}
