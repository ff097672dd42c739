use crate::settlement::AlignedVerificationData;
use vstd::prelude::*;

verus! {

/// What paying the batcher costs, in wei (4 * 10^15).
pub const BATCHER_COST: u64 = 4000000000000000;

/// Seconds to wait between two on-chain checks of a proof.
pub const RETRY_INTERVAL_SEC: u64 = 10;

/// How many on-chain checks of a proof are made before giving up.
pub const MAX_RETRIES: u64 = 10;

/// The proving systems Aligned verifies.
#[derive(Debug, Clone, Copy, PartialEq, Eq, Structural)]
pub enum ProvingSystemId {
    GnarkPlonkBls12_381,
    GnarkPlonkBn254,
    Groth16Bn254,
    SP1,
    Halo2KZG,
    Halo2IPA,
    Risc0,
}

/// A proof as it is submitted to the Aligned batcher.
pub struct VerificationData {
    pub proving_system: ProvingSystemId,
    pub proof: Vec<u8>,
    pub pub_input: Option<Vec<u8>>,
    pub verification_key: Option<Vec<u8>>,
    pub vm_program_code: Option<Vec<u8>>,
    pub proof_generator_addr: [u8; 20],
}

/// Why paying and submitting a proof failed.
#[derive(Debug, Clone, Copy, PartialEq, Eq, Structural)]
pub enum SubmissionFailure {
    /// Paying the batcher costs failed.
    PaymentFailed,
    /// The batcher refused the submission.
    SubmissionFailed,
    /// The batcher answered without verification data.
    NoVerificationData,
}

/// The batcher's answer to a submission.
pub enum SubmitReply {
    /// The submission call failed.
    Failed,
    /// The call returned, with or without verification data.
    Answered(Option<AlignedVerificationData>),
}

/// The next thing the pay-and-submit flow does.
pub enum SubmissionAction {
    /// Pay this many wei of batcher costs.
    PayBatcher(u64),
    /// Submit this proof to the batcher.
    Submit(VerificationData),
    /// Stop with this failure.
    Fail(SubmissionFailure),
    /// Stop with the proof's verification data.
    Done(AlignedVerificationData),
}

/// The next thing the confirmation loop does.
#[derive(Debug, Clone, Copy, PartialEq, Eq, Structural)]
pub enum ConfirmationAction {
    /// Ask the chain whether the proof is verified.
    VerifyOnChain,
    /// Wait this many seconds.
    Sleep(u64),
    /// Stop: the proof is confirmed.
    Confirmed,
    /// Stop: the proof was not confirmed after `MAX_RETRIES` checks.
    NotConfirmed,
}

/// The loop that waits for a proof's on-chain confirmation; `checks` is the
/// number of on-chain checks answered so far.
pub struct ConfirmationLoop {
    pub checks: u64,
}

/// What the loop does after an on-chain check answered `reply` (`None` when
/// the check itself failed): stop confirmed on `Some(true)`, else wait.
pub open spec fn reply_action(reply: Option<bool>) -> ConfirmationAction {
    if reply == Some(true) {
        ConfirmationAction::Confirmed
    } else {
        ConfirmationAction::Sleep(RETRY_INTERVAL_SEC)
    }
}

/// What the loop does when it is ready to check, after `checks` answered
/// checks: check again while fewer than `MAX_RETRIES` were made.
pub open spec fn check_action(checks: nat) -> ConfirmationAction {
    if checks < MAX_RETRIES {
        ConfirmationAction::VerifyOnChain
    } else {
        ConfirmationAction::NotConfirmed
    }
}

/// The loop driven from `checks` answered checks, its next checks answered
/// by `replies` in order: the number of checks made when it stops, and
/// whether it stops confirmed (it stops unconfirmed if the replies run out).
pub open spec fn confirmation_run(checks: nat, replies: Seq<Option<bool>>) -> (nat, bool)
    decreases replies.len(),
{
    if check_action(checks) == ConfirmationAction::VerifyOnChain && replies.len() > 0 {
        if reply_action(replies[0]) == ConfirmationAction::Confirmed {
            (checks + 1, true)
        } else {
            confirmation_run(checks + 1, replies.drop_first())
        }
    } else {
        (checks, false)
    }
}

/// The first step of the pay-and-submit flow: pay the batcher costs.
pub fn submission_start() -> (action: SubmissionAction)
    ensures
        action == SubmissionAction::PayBatcher(BATCHER_COST),
{
    SubmissionAction::PayBatcher(BATCHER_COST)
}

/// The proof as it is submitted: no verification key, the program code as
/// the VM program, and the application's wallet as the proof generator.
pub fn verification_data(
    proof: Vec<u8>,
    pub_input: Option<Vec<u8>>,
    program_code: Vec<u8>,
    proving_system: ProvingSystemId,
    proof_generator_addr: [u8; 20],
) -> (data: VerificationData)
    ensures
        data.proving_system == proving_system,
        data.proof == proof,
        data.pub_input == pub_input,
        data.verification_key is None,
        data.vm_program_code == Some(program_code),
        data.proof_generator_addr == proof_generator_addr,
{
    VerificationData {
        proving_system,
        proof,
        pub_input,
        verification_key: None,
        vm_program_code: Some(program_code),
        proof_generator_addr,
    }
}

/// The flow after the payment: on success submit `request`, else fail.
pub fn submission_after_payment(paid: bool, request: VerificationData) -> (action:
    SubmissionAction)
    ensures
        paid ==> action == SubmissionAction::Submit(request),
        !paid ==> action == SubmissionAction::Fail(SubmissionFailure::PaymentFailed),
{
    if paid {
        SubmissionAction::Submit(request)
    } else {
        SubmissionAction::Fail(SubmissionFailure::PaymentFailed)
    }
}

/// The flow after the batcher's reply: the verification data when there is
/// one, else the failure that the reply shows.
pub fn submission_after_submit(reply: SubmitReply) -> (action: SubmissionAction)
    ensures
        match reply {
            SubmitReply::Failed => action == SubmissionAction::Fail(
                SubmissionFailure::SubmissionFailed,
            ),
            SubmitReply::Answered(None) => action == SubmissionAction::Fail(
                SubmissionFailure::NoVerificationData,
            ),
            SubmitReply::Answered(Some(data)) => action == SubmissionAction::Done(data),
        },
{
    match reply {
        SubmitReply::Failed => SubmissionAction::Fail(SubmissionFailure::SubmissionFailed),
        SubmitReply::Answered(None) => SubmissionAction::Fail(SubmissionFailure::NoVerificationData),
        SubmitReply::Answered(Some(data)) => SubmissionAction::Done(data),
    }
}

impl ConfirmationLoop {
    /// A loop that has made no check yet.
    pub fn new() -> (confirmation: Self)
        ensures
            confirmation.checks == 0,
    {
        ConfirmationLoop { checks: 0 }
    }

    /// What to do when ready to check (at the start, and after each wait).
    pub fn next_check(&self) -> (action: ConfirmationAction)
        ensures
            action == check_action(self.checks as nat),
    {
        if self.checks < MAX_RETRIES {
            ConfirmationAction::VerifyOnChain
        } else {
            ConfirmationAction::NotConfirmed
        }
    }

    /// Records the answer to a check (`None` when the check failed) and
    /// says what to do next.
    pub fn on_reply(&mut self, reply: Option<bool>) -> (action: ConfirmationAction)
        requires
            old(self).checks < MAX_RETRIES,
        ensures
            final(self).checks == old(self).checks + 1,
            action == reply_action(reply),
    {
        self.checks = self.checks + 1;
        match reply {
            Some(true) => ConfirmationAction::Confirmed,
            _ => ConfirmationAction::Sleep(RETRY_INTERVAL_SEC),
        }
    }
}

proof fn lemma_confirmation_run_from(checks: nat, replies: Seq<Option<bool>>)
    requires
        checks <= MAX_RETRIES,
        replies.len() + checks >= MAX_RETRIES,
    ensures
        confirmation_run(checks, replies).1 <==> exists|i: int|
            0 <= i < MAX_RETRIES - checks && #[trigger] replies[i] == Some(true),
        confirmation_run(checks, replies).0 <= MAX_RETRIES,
        !confirmation_run(checks, replies).1 ==> confirmation_run(checks, replies).0
            == MAX_RETRIES,
    decreases replies.len(),
{
    if checks < MAX_RETRIES {
        if replies[0] != Some(true) {
            let rest = replies.drop_first();
            lemma_confirmation_run_from(checks + 1, rest);
            if exists|i: int| 0 <= i < MAX_RETRIES - checks && #[trigger] replies[i] == Some(true) {
                let i = choose|i: int|
                    0 <= i < MAX_RETRIES - checks && #[trigger] replies[i] == Some(true);
                assert(rest[i - 1] == Some(true));
            }
            if exists|i: int|
                0 <= i < MAX_RETRIES - (checks + 1) && #[trigger] rest[i] == Some(true) {
                let i = choose|i: int|
                    0 <= i < MAX_RETRIES - (checks + 1) && #[trigger] rest[i] == Some(true);
                assert(replies[i + 1] == Some(true));
            }
        }
    }
}

/// Waiting for a confirmation makes at most `MAX_RETRIES` on-chain checks,
/// and ends confirmed exactly when one of the first `MAX_RETRIES` checks
/// answers `true`; otherwise it ends after all `MAX_RETRIES` checks.
pub proof fn lemma_confirmation_loop_outcome(replies: Seq<Option<bool>>)
    requires
        replies.len() >= MAX_RETRIES,
    ensures
        confirmation_run(0, replies).1 <==> exists|i: int|
            0 <= i < MAX_RETRIES && #[trigger] replies[i] == Some(true),
        confirmation_run(0, replies).0 <= MAX_RETRIES,
        !confirmation_run(0, replies).1 ==> confirmation_run(0, replies).0 == MAX_RETRIES,
{
    lemma_confirmation_run_from(0, replies);
}

} // verus!
