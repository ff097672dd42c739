# mining

Verified core of a minesweeper proof aggregator. A player's guesses are
proved in a zkVM game program, the proof is verified in an Aligned batch, and
an escrow contract settles the player's bet.

- `src/game.rs`: the game program's rules (bomb limit, bounds check, hit
  detection) and the commitments on both sides: what the program outputs and
  what the server expects for a won game.
- `src/abi.rs`, `src/keccak.rs`: the Solidity ABI encoding of the game
  commitment and Keccak-256, called through `alloy-sol-types` and
  `tiny-keccak`.
- `src/prover_input.rs`: the input the prover writes for the game program.
- `src/settlement.rs`: the escrow contract's arguments built from Aligned's
  verification data, and the game-result decisions.
- `src/submission.rs`: the decisions of the pay-and-submit flow and of the
  loop that waits for on-chain confirmation.
- `app/`: the HTTP servers, the SP1 prover, the chain and database calls.
