//! The fixed-width little-endian encoding of 32-bit values, which instructions
//! and account state share.

use vstd::prelude::*;

verus! {

/// The number that four bytes stand for, least significant byte first.
pub open spec fn u32_from_le(bytes: Seq<u8>) -> u32
    recommends
        bytes.len() == 4,
{
    (bytes[0] as int + 0x100 * (bytes[1] as int) + 0x1_0000 * (bytes[2] as int) + 0x100_0000 * (
    bytes[3] as int)) as u32
}

/// The four bytes that stand for a number, least significant byte first.
pub open spec fn u32_to_le(value: u32) -> Seq<u8> {
    seq![
        (value % 0x100) as u8,
        (value / 0x100 % 0x100) as u8,
        (value / 0x1_0000 % 0x100) as u8,
        (value / 0x100_0000) as u8,
    ]
}

/// Encoding a number and decoding the bytes gives the number back.
pub proof fn lemma_decode_encoded(value: u32)
    ensures
        u32_to_le(value).len() == 4,
        u32_from_le(u32_to_le(value)) == value,
{
}

/// Decoding four bytes and encoding the number gives the bytes back, so no two
/// different records stand for the same number.
pub proof fn lemma_encode_decoded(bytes: Seq<u8>)
    requires
        bytes.len() == 4,
    ensures
        u32_to_le(u32_from_le(bytes)) == bytes,
{
    assert(u32_to_le(u32_from_le(bytes)) =~= bytes);
}

/// Decodes one 32-bit value by calling `borsh::from_slice::<u32>`.
///
/// The contract is borsh's behaviour taken on trust, not proved here: borsh
/// reads exactly four bytes as a little-endian number and fails on input that
/// is shorter or that has bytes left over, so the call succeeds on four-byte
/// input and on no other. Which error borsh gave is dropped.
#[verifier::external_body]
pub(crate) fn read_u32(bytes: &[u8]) -> (value: Option<u32>)
    ensures
        value == (if bytes@.len() == 4 {
            Some(u32_from_le(bytes@))
        } else {
            None
        }),
{
    borsh::from_slice::<u32>(bytes).ok()
}

/// Encodes one 32-bit value by calling `borsh::to_vec`.
///
/// The contract is borsh's behaviour taken on trust, not proved here: borsh
/// appends the four little-endian bytes of the number to a fresh, empty vector.
/// The call returns a `Result` because borsh can write to any sink; a vector
/// accepts every write, so for this sink the result is always there.
#[verifier::external_body]
pub(crate) fn write_u32(value: u32) -> (bytes: Option<Vec<u8>>)
    ensures
        bytes is Some,
        bytes.unwrap()@ == u32_to_le(value),
{
    borsh::to_vec(&value).ok()
}

} // verus!
