//! The record's byte layout as mathematics: what a counter record holds,
//! which sixteen bytes stand for it, which record a byte sequence stands
//! for, and the laws that tie the two together.
//!
//! | offset | size | field         | encoding                 |
//! |--------|------|---------------|--------------------------|
//! | 0      | 8    | discriminator | the bytes as they are    |
//! | 8      | 8    | count         | `u64`, little-endian     |

use crate::little_endian::{
    le_digits, le_value, lemma_le_digits_len, lemma_le_digits_of_value, lemma_le_value_bound,
    lemma_le_value_of_digits, lemma_radix_power_eight,
};
use vstd::prelude::*;

verus! {

/// What a counter record holds.
pub struct Record {
    /// Tag that tells record types apart. This layout carries it and never
    /// looks at it.
    pub discriminator: Seq<u8>,
    /// The counter's value.
    pub count: nat,
}

impl Record {
    /// The record can be laid out: the discriminator has its eight bytes and
    /// the count fits in a `u64`.
    pub open spec fn valid(self) -> bool {
        &&& self.discriminator.len() == 8
        &&& self.count <= u64::MAX
    }

    /// The bytes that stand for the record: the discriminator, then the
    /// count in little-endian order.
    pub open spec fn encode(self) -> Seq<u8> {
        self.discriminator + le_digits(self.count, 8)
    }

    /// The record that `bytes` begin with, if they are enough for one. Bytes
    /// after the sixteenth are not looked at.
    pub open spec fn decode(bytes: Seq<u8>) -> Option<Record> {
        if bytes.len() < 16 {
            None
        } else {
            Some(
                Record {
                    discriminator: bytes.subrange(0, 8),
                    count: le_value(bytes.subrange(8, 16)),
                },
            )
        }
    }
}

/// Every valid record is laid out in exactly sixteen bytes.
pub proof fn lemma_encode_len(record: Record)
    requires
        record.valid(),
    ensures
        record.encode().len() == 16,
{
    lemma_le_digits_len(record.count, 8);
}

/// Decoding the bytes of a valid record gives that record back.
pub proof fn lemma_decode_encode(record: Record)
    requires
        record.valid(),
    ensures
        Record::decode(record.encode()) == Some(record),
{
    let bytes = record.encode();
    let digits = le_digits(record.count, 8);
    lemma_le_digits_len(record.count, 8);
    lemma_radix_power_eight();
    lemma_le_value_of_digits(record.count, 8);
    assert(bytes.subrange(0, 8) =~= record.discriminator);
    assert(bytes.subrange(8, 16) =~= digits);
}

/// Whatever sixteen bytes or more are given, they decode, to a valid record,
/// and that record's bytes are the first sixteen of them.
pub proof fn lemma_encode_decode(bytes: Seq<u8>)
    requires
        bytes.len() >= 16,
    ensures
        Record::decode(bytes) matches Some(record) && {
            &&& record.valid()
            &&& record.encode() == bytes.subrange(0, 16)
        },
{
    let record = Record::decode(bytes).unwrap();
    let digits = bytes.subrange(8, 16);
    lemma_le_value_bound(digits);
    lemma_radix_power_eight();
    lemma_le_digits_of_value(digits);
    assert(record.encode() =~= bytes.subrange(0, 16));
}

/// The discriminator is carried, not judged: two records that differ in
/// nothing but the discriminator both survive encoding and decoding, and
/// come back differing in nothing but the discriminator.
pub proof fn lemma_discriminator_opaque(first: Seq<u8>, second: Seq<u8>, count: nat)
    requires
        first.len() == 8,
        second.len() == 8,
        first != second,
        count <= u64::MAX,
    ensures
        ({
            let a = Record::decode((Record { discriminator: first, count }).encode());
            let b = Record::decode((Record { discriminator: second, count }).encode());
            &&& a is Some
            &&& b is Some
            &&& a.unwrap().discriminator == first
            &&& b.unwrap().discriminator == second
            &&& a.unwrap().count == count
            &&& b.unwrap().count == count
        }),
{
    lemma_decode_encode(Record { discriminator: first, count });
    lemma_decode_encode(Record { discriminator: second, count });
}

} // verus!
