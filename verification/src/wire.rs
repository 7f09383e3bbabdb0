//! The calls into `borsh` that read and write the two kinds of field a
//! counter record is made of: an eight-byte array and a `u64`.
//!
//! The contracts in this module are not proved. They restate, over the
//! little-endian model of [`crate::little_endian`], what `borsh` does for
//! these two types when it reads from a byte slice and writes to a `Vec<u8>`.

use crate::little_endian::{le_digits, le_value};
use borsh::{BorshDeserialize, BorshSerialize};
use vstd::prelude::*;

verus! {

/// The error type of `std::io`, which `borsh` reports failures in. Nothing
/// is known of what a value of it holds.
#[verifier::external_type_specification]
#[verifier::external_body]
pub struct ExIoError(std::io::Error);

/// `BorshDeserialize::deserialize` for `[u8; 8]`.
///
/// With eight bytes or more in `buf`, the call copies the first eight into
/// the array it returns and leaves `buf` at the bytes after them. With fewer,
/// it fails.
#[verifier::external_body]
pub(crate) fn read_byte_array(buf: &mut &[u8]) -> (r: Result<[u8; 8], std::io::Error>)
    ensures
        r is Ok <==> old(buf)@.len() >= 8,
        r matches Ok(bytes) ==> {
            &&& bytes@ == old(buf)@.subrange(0, 8)
            &&& final(buf)@ == old(buf)@.skip(8)
        },
{
    <[u8; 8] as BorshDeserialize>::deserialize(buf)
}

/// `BorshDeserialize::deserialize` for `u64`.
///
/// With eight bytes or more in `buf`, the call returns the number that the
/// first eight spell in little-endian order and leaves `buf` at the bytes
/// after them. With fewer, it fails.
#[verifier::external_body]
pub(crate) fn read_u64(buf: &mut &[u8]) -> (r: Result<u64, std::io::Error>)
    ensures
        r is Ok <==> old(buf)@.len() >= 8,
        r matches Ok(value) ==> {
            &&& value == le_value(old(buf)@.subrange(0, 8))
            &&& final(buf)@ == old(buf)@.skip(8)
        },
{
    <u64 as BorshDeserialize>::deserialize(buf)
}

/// `BorshSerialize::serialize` for `[u8; 8]`, writing to a `Vec<u8>`.
///
/// The call appends the eight bytes as they are. Appending to a vector is
/// the only step that could report an error, and a vector grows as needed,
/// so the call succeeds.
#[verifier::external_body]
pub(crate) fn write_byte_array(bytes: &[u8; 8], out: &mut Vec<u8>) -> (r: Result<(), std::io::Error>)
    ensures
        r is Ok,
        final(out)@ == old(out)@ + bytes@,
{
    <[u8; 8] as BorshSerialize>::serialize(bytes, out)
}

/// `BorshSerialize::serialize` for `u64`, writing to a `Vec<u8>`.
///
/// The call appends the number's eight little-endian bytes. Appending to a
/// vector is the only step that could report an error, and a vector grows as
/// needed, so the call succeeds.
#[verifier::external_body]
pub(crate) fn write_u64(value: u64, out: &mut Vec<u8>) -> (r: Result<(), std::io::Error>)
    ensures
        r is Ok,
        final(out)@ == old(out)@ + le_digits(value as nat, 8),
{
    <u64 as BorshSerialize>::serialize(&value, out)
}

} // verus!
