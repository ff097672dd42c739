use crate::game::{winning_commitment, winning_public_input_commitment, Guesses};
use vstd::prelude::*;

verus! {

/// The commitments that identify one verified proof inside an Aligned batch.
pub struct VerificationDataCommitment {
    pub proof_commitment: [u8; 32],
    pub pub_input_commitment: [u8; 32],
    pub proving_system_aux_data_commitment: [u8; 32],
    pub proof_generator_addr: [u8; 20],
}

/// The Merkle path from a proof's leaf to the batch root.
pub struct InclusionProof {
    pub merkle_path: Vec<[u8; 32]>,
}

/// What Aligned returns for a proof that was included in a verified batch.
pub struct AlignedVerificationData {
    pub verification_data_commitment: VerificationDataCommitment,
    pub batch_merkle_root: [u8; 32],
    pub batch_inclusion_proof: InclusionProof,
    pub index_in_batch: usize,
}

/// A game's guesses together with the Aligned data of its proof, as the
/// server stores them.
pub struct GameVerificationData {
    pub data: AlignedVerificationData,
    pub game: Guesses,
}

/// The argument of the escrow contract's `settleBet`.
pub struct SettlementInput {
    pub game_id: u128,
    pub result: bool,
    pub proof_commitment: Vec<[u8; 32]>,
    pub proving_system_aux_data_commitment: [u8; 32],
    pub proof_generator_addr: [u8; 20],
    pub batch_merkle_root: Vec<[u8; 32]>,
    pub merkle_proof: Vec<Vec<u8>>,
    pub verification_data_batch_index: Vec<usize>,
}

/// The arguments of the escrow contract's `verifyBatchInclusion`.
pub struct BatchInclusionQuery {
    pub proof_commitment: [u8; 32],
    pub pub_input_commitment: [u8; 32],
    pub proving_system_aux_data_commitment: [u8; 32],
    pub proof_generator_addr: [u8; 20],
    pub batch_merkle_root: [u8; 32],
    pub merkle_proof: Vec<u8>,
    pub verification_data_batch_index: usize,
}

/// What the game-result endpoint does once the stored data has been looked
/// up.
pub enum GameResultStep {
    /// Answer at once with this outcome.
    Respond(bool),
    /// Ask the escrow contract whether the proof is included in its batch.
    VerifyInclusion(BatchInclusionQuery),
}

/// The nodes of a Merkle path, concatenated in order.
pub open spec fn flatten_path(path: Seq<[u8; 32]>) -> Seq<u8>
    decreases path.len(),
{
    if path.len() == 0 {
        Seq::empty()
    } else {
        flatten_path(path.drop_last()) + path.last()@
    }
}

/// `input` is the settlement of game `id` with `outcome`, built from the
/// stored verification data `stored`: every list holds the one entry taken
/// from `stored`.
pub open spec fn is_settlement_input(
    input: SettlementInput,
    id: u128,
    outcome: bool,
    stored: GameVerificationData,
) -> bool {
    let c = stored.data.verification_data_commitment;
    &&& input.game_id == id
    &&& input.result == outcome
    &&& input.proof_commitment@ == seq![c.proof_commitment]
    &&& input.proving_system_aux_data_commitment == c.proving_system_aux_data_commitment
    &&& input.proof_generator_addr == c.proof_generator_addr
    &&& input.batch_merkle_root@ == seq![stored.data.batch_merkle_root]
    &&& input.merkle_proof@.len() == 1
    &&& input.merkle_proof@[0]@ == flatten_path(stored.data.batch_inclusion_proof.merkle_path@)
    &&& input.verification_data_batch_index@ == seq![stored.data.index_in_batch]
}

/// Concatenates the nodes of a Merkle path into one byte string.
pub fn flatten_merkle_path(merkle_path: &Vec<[u8; 32]>) -> (bytes: Vec<u8>)
    ensures
        bytes@ == flatten_path(merkle_path@),
{
    let mut bytes: Vec<u8> = Vec::new();
    let mut i: usize = 0;
    while i < merkle_path.len()
        invariant
            i <= merkle_path.len(),
            bytes@ == flatten_path(merkle_path@.take(i as int)),
        decreases merkle_path.len() - i,
    {
        let node: [u8; 32] = merkle_path[i];
        let ghost before = bytes@;
        let mut j: usize = 0;
        while j < 32
            invariant
                j <= 32,
                bytes@ == before + node@.take(j as int),
            decreases 32 - j,
        {
            bytes.push(node[j]);
            j += 1;
            assert(bytes@ =~= before + node@.take(j as int));
        }
        assert(node@.take(32) =~= node@);
        assert(merkle_path@.take(i + 1).drop_last() =~= merkle_path@.take(i as int));
        i += 1;
    }
    assert(merkle_path@.take(merkle_path.len() as int) =~= merkle_path@);
    bytes
}

/// Builds the settlement of game `id` with `outcome` from the stored
/// verification data of its proof.
pub fn settlement_input(id: u128, outcome: bool, verification_data: GameVerificationData) -> (input:
    SettlementInput)
    ensures
        is_settlement_input(input, id, outcome, verification_data),
{
    settlement_of(id, outcome, &verification_data)
}

fn settlement_of(id: u128, outcome: bool, verification_data: &GameVerificationData) -> (input:
    SettlementInput)
    ensures
        is_settlement_input(input, id, outcome, *verification_data),
{
    let commitment = &verification_data.data.verification_data_commitment;
    let mut proof_commitment: Vec<[u8; 32]> = Vec::new();
    proof_commitment.push(commitment.proof_commitment);
    let mut batch_merkle_root: Vec<[u8; 32]> = Vec::new();
    batch_merkle_root.push(verification_data.data.batch_merkle_root);
    let mut merkle_proof: Vec<Vec<u8>> = Vec::new();
    merkle_proof.push(flatten_merkle_path(&verification_data.data.batch_inclusion_proof.merkle_path));
    let mut verification_data_batch_index: Vec<usize> = Vec::new();
    verification_data_batch_index.push(verification_data.data.index_in_batch);
    SettlementInput {
        game_id: id,
        result: outcome,
        proof_commitment,
        proving_system_aux_data_commitment: commitment.proving_system_aux_data_commitment,
        proof_generator_addr: commitment.proof_generator_addr,
        batch_merkle_root,
        merkle_proof,
        verification_data_batch_index,
    }
}

/// The settlements the settle-bet endpoint sends, in order, after looking up
/// game `id`: none when nothing is stored; otherwise the settlement with
/// outcome `true`, then the one with outcome `false`.
pub fn settle_bet_inputs(id: u128, found: Option<GameVerificationData>) -> (inputs: Vec<
    SettlementInput,
>)
    ensures
        match found {
            None => inputs@.len() == 0,
            Some(stored) => {
                &&& inputs@.len() == 2
                &&& is_settlement_input(inputs@[0], id, true, stored)
                &&& is_settlement_input(inputs@[1], id, false, stored)
            },
        },
{
    let mut inputs: Vec<SettlementInput> = Vec::new();
    match found {
        None => {},
        Some(stored) => {
            inputs.push(settlement_of(id, true, &stored));
            inputs.push(settlement_of(id, false, &stored));
        },
    }
    inputs
}

/// The inclusion query for a stored game: the stored proof's commitments and
/// batch position, with the public-input commitment of a won game over the
/// stored guesses.
pub fn batch_inclusion_query(verification_data: &GameVerificationData) -> (query: BatchInclusionQuery)
    ensures
        query.proof_commitment
            == verification_data.data.verification_data_commitment.proof_commitment,
        query.pub_input_commitment@ == winning_public_input_commitment(
            verification_data.game.guesses@,
        ),
        query.proving_system_aux_data_commitment
            == verification_data.data.verification_data_commitment.proving_system_aux_data_commitment,
        query.proof_generator_addr
            == verification_data.data.verification_data_commitment.proof_generator_addr,
        query.batch_merkle_root == verification_data.data.batch_merkle_root,
        query.merkle_proof@ == flatten_path(
            verification_data.data.batch_inclusion_proof.merkle_path@,
        ),
        query.verification_data_batch_index == verification_data.data.index_in_batch,
{
    let commitment = &verification_data.data.verification_data_commitment;
    BatchInclusionQuery {
        proof_commitment: commitment.proof_commitment,
        pub_input_commitment: winning_commitment(&verification_data.game.guesses),
        proving_system_aux_data_commitment: commitment.proving_system_aux_data_commitment,
        proof_generator_addr: commitment.proof_generator_addr,
        batch_merkle_root: verification_data.data.batch_merkle_root,
        merkle_proof: flatten_merkle_path(&verification_data.data.batch_inclusion_proof.merkle_path),
        verification_data_batch_index: verification_data.data.index_in_batch,
    }
}

/// The game-result endpoint after the lookup of the stored data: with no
/// stored data the game is not won; otherwise the inclusion of the stored
/// proof, with a won-game public input, is to be checked on chain.
pub fn game_result_on_lookup(found: Option<GameVerificationData>) -> (step: GameResultStep)
    ensures
        match found {
            None => step matches GameResultStep::Respond(false),
            Some(stored) => step matches GameResultStep::VerifyInclusion(query) && {
                let c = stored.data.verification_data_commitment;
                &&& query.proof_commitment == c.proof_commitment
                &&& query.pub_input_commitment@ == winning_public_input_commitment(
                    stored.game.guesses@,
                )
                &&& query.proving_system_aux_data_commitment
                    == c.proving_system_aux_data_commitment
                &&& query.proof_generator_addr == c.proof_generator_addr
                &&& query.batch_merkle_root == stored.data.batch_merkle_root
                &&& query.merkle_proof@ == flatten_path(
                    stored.data.batch_inclusion_proof.merkle_path@,
                )
                &&& query.verification_data_batch_index == stored.data.index_in_batch
            },
        },
{
    match found {
        None => GameResultStep::Respond(false),
        Some(stored) => GameResultStep::VerifyInclusion(batch_inclusion_query(&stored)),
    }
}

/// The game-result endpoint's answer from the contract's reply: `None` when
/// the call failed, which answers "not won"; otherwise the contract's answer.
pub fn game_result_on_reply(reply: Option<bool>) -> (won: bool)
    ensures
        won == (reply == Some(true)),
{
    match reply {
        Some(included) => included,
        None => false,
    }
}

/// The flattened Merkle path holds 32 bytes per node, node `i` at offset
/// `32 * i`.
pub proof fn lemma_flatten_path_layout(path: Seq<[u8; 32]>)
    ensures
        flatten_path(path).len() == 32 * path.len(),
        forall|i: int, j: int|
            0 <= i < path.len() && 0 <= j < 32 ==> flatten_path(path)[32 * i + j]
                == #[trigger] path[i][j],
    decreases path.len(),
{
    if path.len() > 0 {
        let prefix = path.drop_last();
        lemma_flatten_path_layout(prefix);
        assert forall|i: int, j: int| 0 <= i < path.len() && 0 <= j < 32 implies flatten_path(
            path,
        )[32 * i + j] == #[trigger] path[i][j] by {
            if i < path.len() - 1 {
                assert(prefix[i] == path[i]);
            } else {
                assert(path.last()@[j] == path[i][j]);
            }
        }
    }
}

/// The two settlements of a bet, with outcome `true` and with outcome
/// `false`, carry the same proof data and game id and differ only in the
/// outcome.
pub proof fn lemma_settlements_differ_only_in_outcome(
    won: SettlementInput,
    lost: SettlementInput,
    id: u128,
    stored: GameVerificationData,
)
    requires
        is_settlement_input(won, id, true, stored),
        is_settlement_input(lost, id, false, stored),
    ensures
        won.game_id == lost.game_id,
        won.result != lost.result,
        won.proof_commitment@ == lost.proof_commitment@,
        won.proving_system_aux_data_commitment == lost.proving_system_aux_data_commitment,
        won.proof_generator_addr == lost.proof_generator_addr,
        won.batch_merkle_root@ == lost.batch_merkle_root@,
        won.merkle_proof@.len() == lost.merkle_proof@.len(),
        forall|k: int| 0 <= k < won.merkle_proof@.len() ==> won.merkle_proof@[k]@ == #[trigger] lost.merkle_proof@[k]@,
        won.verification_data_batch_index@ == lost.verification_data_batch_index@,
{
}

} // verus!
