//! The counter account record as a Rust value, and its conversion from and
//! to the sixteen bytes that stand for it.

use crate::layout::{lemma_decode_encode, lemma_encode_len, Record};
use crate::wire::{read_byte_array, read_u64, write_byte_array, write_u64};
use vstd::prelude::*;

verus! {

/// A counter account record.
#[derive(Debug, Eq)]
pub struct Counter {
    /// Tag that tells record types apart. It is assigned elsewhere; this
    /// type carries it and never looks at it.
    pub discriminator: [u8; 8],
    /// The counter's value.
    pub count: u64,
}

/// The bytes given do not hold a counter record: there are fewer than
/// sixteen of them.
#[derive(Clone, Copy, Debug, PartialEq, Eq, Structural)]
pub struct DecodeError;

impl View for Counter {
    type V = Record;

    open spec fn view(&self) -> Record {
        Record { discriminator: self.discriminator@, count: self.count as nat }
    }
}

impl Clone for Counter {
    fn clone(&self) -> (copy: Counter)
        ensures
            copy == *self,
    {
        Counter { discriminator: self.discriminator, count: self.count }
    }
}

impl PartialEq for Counter {
    fn eq(&self, other: &Counter) -> (same: bool) {
        let mut i: usize = 0;
        while i < 8
            invariant
                i <= 8,
                forall|j: int| 0 <= j < i ==> self.discriminator@[j] == other.discriminator@[j],
            decreases 8 - i,
        {
            if self.discriminator[i] != other.discriminator[i] {
                return false;
            }
            i += 1;
        }
        assert(self.discriminator@ =~= other.discriminator@);
        self.count == other.count
    }
}

impl vstd::std_specs::cmp::PartialEqSpecImpl for Counter {
    open spec fn obeys_eq_spec() -> bool {
        true
    }

    open spec fn eq_spec(&self, other: &Counter) -> bool {
        self@ == other@
    }
}

impl Counter {
    /// Number of bytes that every record takes.
    pub const LEN: usize = 16;

    /// Reads one record from the front of `buf` and moves `buf` past it.
    ///
    /// The first eight bytes become the discriminator as they are, the next
    /// eight the count, read as a little-endian number. The only input
    /// refused is one of fewer than sixteen bytes; where `buf` then stands
    /// is left open.
    pub fn deserialize(buf: &mut &[u8]) -> (r: Result<Counter, DecodeError>)
        ensures
            r is Ok <==> old(buf)@.len() >= Self::LEN,
            match r {
                Ok(counter) => {
                    &&& Record::decode(old(buf)@) == Some(counter@)
                    &&& final(buf)@ == old(buf)@.skip(16)
                },
                Err(_) => Record::decode(old(buf)@) is None,
            },
    {
        let discriminator = match read_byte_array(buf) {
            Ok(bytes) => bytes,
            Err(_) => {
                return Err(DecodeError);
            },
        };
        let count = match read_u64(buf) {
            Ok(value) => value,
            Err(_) => {
                return Err(DecodeError);
            },
        };
        assert(old(buf)@.skip(8).subrange(0, 8) =~= old(buf)@.subrange(8, 16));
        assert(old(buf)@.skip(8).skip(8) =~= old(buf)@.skip(16));
        Ok(Counter { discriminator, count })
    }

    /// Reads the record that `data` begins with. Bytes after the sixteenth
    /// are ignored; fewer than sixteen bytes are refused.
    pub fn from_bytes(data: &[u8]) -> (r: Result<Counter, DecodeError>)
        ensures
            r is Ok <==> data@.len() >= Self::LEN,
            match r {
                Ok(counter) => Record::decode(data@) == Some(counter@),
                Err(_) => Record::decode(data@) is None,
            },
    {
        let mut data = data;
        Self::deserialize(&mut data)
    }

    /// Appends the record's sixteen bytes to `out`: the discriminator as it
    /// is, then the count in little-endian order.
    pub fn serialize(&self, out: &mut Vec<u8>)
        ensures
            final(out)@ == old(out)@ + self@.encode(),
    {
        // A write to a vector reports no error, so neither result is looked at.
        let _discriminator_written = write_byte_array(&self.discriminator, out);
        let _count_written = write_u64(self.count, out);
        assert(out@ =~= old(out)@ + self@.encode());
    }

    /// The record's sixteen bytes.
    pub fn to_bytes(&self) -> (out: Vec<u8>)
        ensures
            out@ == self@.encode(),
            out@.len() == Self::LEN,
    {
        let mut out: Vec<u8> = Vec::with_capacity(Self::LEN);
        self.serialize(&mut out);
        proof {
            lemma_encode_len(self@);
        }
        out
    }
}

/// Reading back the bytes of any counter gives that counter: with the
/// contracts of [`Counter::to_bytes`] and [`Counter::from_bytes`], decoding
/// what was encoded returns a value that stands for the same record, and by
/// [`lemma_view_injective`] is the same value.
pub proof fn lemma_round_trip(counter: Counter)
    ensures
        Record::decode(counter@.encode()) == Some(counter@),
{
    lemma_decode_encode(counter@);
}

/// Every `Counter` stands for a valid record.
pub proof fn lemma_view_valid(counter: Counter)
    ensures
        counter@.valid(),
{
}

/// A `Counter` holds nothing beyond the record it stands for: two that
/// stand for the same record are the same value.
pub proof fn lemma_view_injective(a: Counter, b: Counter)
    requires
        a@ == b@,
    ensures
        a == b,
{
    assert(a.discriminator =~= b.discriminator);
}

} // verus!
