use alloy_sol_types::sol_data::{Array, Bool, Uint};
use alloy_sol_types::SolType;
use vstd::arithmetic::power::pow;
use vstd::prelude::*;

verus! {

/// The 32-byte big-endian ABI word that holds the unsigned value `v`
/// (meaningful for `v < 2^256`).
pub open spec fn abi_word(v: nat) -> Seq<u8> {
    Seq::new(32, |i: int| ((v as int / pow(256, (31 - i) as nat)) % 256) as u8)
}

/// The ABI words of the guesses, in order: each guess `(x, y)` is the static
/// tuple `(uint8, uint8)`, that is two words.
pub open spec fn guess_words(guesses: Seq<(u8, u8)>) -> Seq<u8>
    decreases guesses.len(),
{
    if guesses.len() == 0 {
        Seq::empty()
    } else {
        guess_words(guesses.drop_last()) + abi_word(guesses.last().0 as nat) + abi_word(
            guesses.last().1 as nat,
        )
    }
}

/// The Solidity ABI encoding of the game commitment
/// `struct GameCommitment { tuple(uint8, uint8)[] user_guesses; bool result; }`
/// as a single value: the offset of the (dynamic) struct, then the struct's
/// head (offset of the array inside the struct, the `bool` word), then the
/// array (its length, then two words per guess).
pub open spec fn game_commitment_encoding(guesses: Seq<(u8, u8)>, result: bool) -> Seq<u8> {
    abi_word(32) + abi_word(64) + abi_word(if result { 1 } else { 0 }) + abi_word(guesses.len())
        + guess_words(guesses)
}

/// The ABI words of the bombs, in order: each bomb `(x, y)` is the static
/// tuple `(uint32, uint32)`, that is two words.
pub open spec fn bomb_words(bombs: Seq<(u32, u32)>) -> Seq<u8>
    decreases bombs.len(),
{
    if bombs.len() == 0 {
        Seq::empty()
    } else {
        bomb_words(bombs.drop_last()) + abi_word(bombs.last().0 as nat) + abi_word(
            bombs.last().1 as nat,
        )
    }
}

/// The ABI words of the try records, in order: each record `(x, y, miss)`
/// is the static tuple `(uint32, uint32, bool)`, that is three words.
pub open spec fn try_words(results: Seq<(u32, u32, bool)>) -> Seq<u8>
    decreases results.len(),
{
    if results.len() == 0 {
        Seq::empty()
    } else {
        try_words(results.drop_last()) + abi_word(results.last().0 as nat) + abi_word(
            results.last().1 as nat,
        ) + abi_word(if results.last().2 { 1 } else { 0 })
    }
}

/// The Solidity ABI encoding of the mine program's state
/// `struct ZkState { tuple(uint32,uint32)[] stored_bombs; tuple(uint32,uint32,bool)[] users_guess; }`
/// as a single value: the offset of the (dynamic) struct, then the struct's
/// head (the offsets of its two arrays inside the struct), then the bombs
/// array (length, two words per bomb), then the tries array (length, three
/// words per record).
pub open spec fn zk_state_encoding(bombs: Seq<(u32, u32)>, results: Seq<(u32, u32, bool)>) -> Seq<
    u8,
> {
    abi_word(32) + abi_word(64) + abi_word((64 + 32 + 64 * bombs.len()) as nat) + abi_word(
        bombs.len(),
    ) + bomb_words(bombs) + abi_word(results.len()) + try_words(results)
}

/// ABI-encodes the game commitment `(user_guesses, result)` with
/// `alloy_sol_types`: `SolType::abi_encode` of the Solidity tuple type
/// `(tuple(uint8,uint8)[], bool)`, which is the type of the `GameCommitment`
/// struct.
///
/// Trusted: the contract claims that the bytes are the standard Solidity ABI
/// encoding of that value, as `game_commitment_encoding` writes it out.
#[verifier::external_body]
pub(crate) fn abi_encode_game_commitment(guesses: &Vec<(u8, u8)>, result: bool) -> (bytes: Vec<
    u8,
>)
    ensures
        bytes@ == game_commitment_encoding(guesses@, result),
{
    <(Array<(Uint<8>, Uint<8>)>, Bool) as SolType>::abi_encode(&(guesses.as_slice(), result))
}

/// ABI-encodes the mine program's state `(stored_bombs, users_guess)` with
/// `alloy_sol_types`: `SolType::abi_encode` of the Solidity tuple type
/// `(tuple(uint32,uint32)[], tuple(uint32,uint32,bool)[])`, which is the type
/// of the `ZkState` struct.
///
/// Trusted: the contract claims that the bytes are the standard Solidity ABI
/// encoding of that value, as `zk_state_encoding` writes it out.
#[verifier::external_body]
pub(crate) fn abi_encode_zk_state(bombs: &Vec<(u32, u32)>, results: &Vec<(u32, u32, bool)>) -> (bytes: Vec<u8>)
    ensures
        bytes@ == zk_state_encoding(bombs@, results@),
{
    <(Array<(Uint<32>, Uint<32>)>, Array<(Uint<32>, Uint<32>, Bool)>) as SolType>::abi_encode(
        &(bombs.as_slice(), results.as_slice()),
    )
}

} // verus!
