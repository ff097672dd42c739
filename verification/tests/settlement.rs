use mining::game::{winning_commitment, Guesses};
use mining::settlement::{
    flatten_merkle_path, game_result_on_lookup, game_result_on_reply, settle_bet_inputs,
    settlement_input,
    AlignedVerificationData, GameResultStep, GameVerificationData, InclusionProof,
    VerificationDataCommitment,
};

fn stored(guesses: Vec<(u8, u8)>) -> GameVerificationData {
    GameVerificationData {
        data: AlignedVerificationData {
            verification_data_commitment: VerificationDataCommitment {
                proof_commitment: [1; 32],
                pub_input_commitment: [2; 32],
                proving_system_aux_data_commitment: [3; 32],
                proof_generator_addr: [4; 20],
            },
            batch_merkle_root: [5; 32],
            batch_inclusion_proof: InclusionProof {
                merkle_path: vec![[6; 32], [7; 32]],
            },
            index_in_batch: 9,
        },
        game: Guesses { guesses, game_id: 42 },
    }
}

#[test]
fn merkle_path_is_concatenated() {
    let mut a = [0u8; 32];
    let mut b = [0u8; 32];
    for i in 0..32 {
        a[i] = i as u8;
        b[i] = 100 + i as u8;
    }
    let flat = flatten_merkle_path(&vec![a, b]);
    assert_eq!(flat.len(), 64);
    assert_eq!(&flat[..32], &a[..]);
    assert_eq!(&flat[32..], &b[..]);
    assert!(flatten_merkle_path(&vec![]).is_empty());
}

#[test]
fn settlement_input_carries_the_stored_proof() {
    let s = settlement_input(42, true, stored(vec![(1, 1)]));
    assert_eq!(s.game_id, 42);
    assert!(s.result);
    assert_eq!(s.proof_commitment, vec![[1u8; 32]]);
    assert_eq!(s.proving_system_aux_data_commitment, [3u8; 32]);
    assert_eq!(s.proof_generator_addr, [4u8; 20]);
    assert_eq!(s.batch_merkle_root, vec![[5u8; 32]]);
    let mut path = vec![6u8; 32];
    path.extend(vec![7u8; 32]);
    assert_eq!(s.merkle_proof, vec![path]);
    assert_eq!(s.verification_data_batch_index, vec![9usize]);
}

#[test]
fn settlements_of_a_bet_differ_only_in_outcome() {
    let won = settlement_input(7, true, stored(vec![(1, 1)]));
    let lost = settlement_input(7, false, stored(vec![(1, 1)]));
    assert!(won.result && !lost.result);
    assert_eq!(won.game_id, lost.game_id);
    assert_eq!(won.proof_commitment, lost.proof_commitment);
    assert_eq!(won.merkle_proof, lost.merkle_proof);
    assert_eq!(won.batch_merkle_root, lost.batch_merkle_root);
    assert_eq!(won.verification_data_batch_index, lost.verification_data_batch_index);
}

#[test]
fn missing_game_is_not_won() {
    assert!(matches!(game_result_on_lookup(None), GameResultStep::Respond(false)));
}

#[test]
fn stored_game_is_checked_with_won_commitment() {
    let guesses = vec![(6, 6), (7, 4)];
    match game_result_on_lookup(Some(stored(guesses.clone()))) {
        GameResultStep::VerifyInclusion(q) => {
            assert_eq!(q.proof_commitment, [1u8; 32]);
            assert_eq!(q.pub_input_commitment, winning_commitment(&guesses));
            assert_ne!(q.pub_input_commitment, [2u8; 32]);
            assert_eq!(q.proving_system_aux_data_commitment, [3u8; 32]);
            assert_eq!(q.proof_generator_addr, [4u8; 20]);
            assert_eq!(q.batch_merkle_root, [5u8; 32]);
            assert_eq!(q.merkle_proof.len(), 64);
            assert_eq!(q.verification_data_batch_index, 9);
        }
        GameResultStep::Respond(_) => panic!("expected an inclusion check"),
    }
}

#[test]
fn contract_reply_decides_the_result() {
    assert!(game_result_on_reply(Some(true)));
    assert!(!game_result_on_reply(Some(false)));
    assert!(!game_result_on_reply(None));
}

#[test]
fn settle_bet_sends_won_then_lost() {
    assert!(settle_bet_inputs(3, None).is_empty());
    let inputs = settle_bet_inputs(3, Some(stored(vec![(1, 1)])));
    assert_eq!(inputs.len(), 2);
    assert!(inputs[0].result);
    assert!(!inputs[1].result);
    assert_eq!(inputs[0].game_id, 3);
    assert_eq!(inputs[1].game_id, 3);
    assert_eq!(inputs[0].merkle_proof, inputs[1].merkle_proof);
    assert_eq!(inputs[1].proof_commitment, vec![[1u8; 32]]);
}
