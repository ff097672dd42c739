//! Verified core of the minesweeper proof aggregator: the rules of the mine
//! game that the zkVM guest proves, the commitments that tie the guest's
//! public output to the on-chain settlement, and the decision logic of the
//! proof submission and confirmation flows.

pub mod abi;
pub mod game;
pub mod keccak;
pub mod mine;
pub mod prover_input;
pub mod settlement;
pub mod submission;
