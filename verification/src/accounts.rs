use vstd::prelude::*;

use crate::ClientError;
use crate::codec::{copy_range, le_value, read_le, spec_has_discriminator, starts_with};
use crate::keys::{KEY_LEN, Pubkey};

verus! {

/// Length of the schema tag that opens every stored account and event.
pub const DISC_LEN: usize = 8;

/// The typed shape of a counter account: its controlling authority and the
/// running count.
pub struct Counter {
    pub authority: Pubkey,
    pub count: u64,
}

/// A counter account decodes from exactly `DISC_LEN + KEY_LEN + 8` bytes:
/// the schema tag, the authority key, then the count, little-endian.
pub open spec fn spec_decode_counter(disc: Seq<u8>, b: Seq<u8>) -> Option<(Seq<u8>, nat)> {
    if b.len() == 48 && spec_has_discriminator(disc, b) {
        Option::Some((b.subrange(8, 40), le_value(b.subrange(40, 48))))
    } else {
        Option::None
    }
}

impl Counter {
    /// Decodes a counter account, or reports that the bytes do not match
    /// the expected shape.
    pub fn decode(disc: &Vec<u8>, bytes: &Vec<u8>) -> (r: Result<Counter, ClientError>)
        requires
            disc@.len() == DISC_LEN,
        ensures
            match r {
                Ok(c) => spec_decode_counter(disc@, bytes@) == Option::Some(
                    (c.authority@, c.count as nat),
                ) && c.authority.wf(),
                Err(e) => e == ClientError::Decode && spec_decode_counter(disc@, bytes@) is None,
            },
    {
        if bytes.len() != 48 {
            return Err(ClientError::Decode);
        }
        if !starts_with(bytes, disc) {
            return Err(ClientError::Decode);
        }
        let authority = Pubkey::new(copy_range(bytes, DISC_LEN, KEY_LEN));
        let count = read_le(bytes, 40, 8);
        Ok(Counter { authority, count })
    }
}

/// The typed shape of a single-value account: one stored number.
///
/// Several remote account kinds share this layout; each carries its own
/// schema tag.
pub struct ValueAccount {
    pub data: u64,
}

/// A single-value account decodes from exactly `DISC_LEN + 8` bytes: the
/// schema tag, then the value, little-endian.
pub open spec fn spec_decode_value_account(disc: Seq<u8>, b: Seq<u8>) -> Option<nat> {
    if b.len() == 16 && spec_has_discriminator(disc, b) {
        Option::Some(le_value(b.subrange(8, 16)))
    } else {
        Option::None
    }
}

impl ValueAccount {
    /// Decodes a single-value account, or reports that the bytes do not
    /// match the expected shape.
    pub fn decode(disc: &Vec<u8>, bytes: &Vec<u8>) -> (r: Result<ValueAccount, ClientError>)
        requires
            disc@.len() == DISC_LEN,
        ensures
            match r {
                Ok(a) => spec_decode_value_account(disc@, bytes@) == Option::Some(a.data as nat),
                Err(e) => e == ClientError::Decode && spec_decode_value_account(disc@, bytes@)
                    is None,
            },
    {
        if bytes.len() != 16 {
            return Err(ClientError::Decode);
        }
        if !starts_with(bytes, disc) {
            return Err(ClientError::Decode);
        }
        let data = read_le(bytes, 8, 8);
        Ok(ValueAccount { data })
    }
}

/// One decoded program event: a number and a label.
pub struct EventRecord {
    pub data: u64,
    pub label: Vec<u8>,
}

/// An event decodes from the schema tag, the number (8 bytes little-endian),
/// the label length (4 bytes little-endian) and exactly that many label
/// bytes.
pub open spec fn spec_decode_event(disc: Seq<u8>, b: Seq<u8>) -> Option<(nat, Seq<u8>)> {
    if b.len() >= 20 && spec_has_discriminator(disc, b) && b.len() == 20 + le_value(
        b.subrange(16, 20),
    ) {
        Option::Some((le_value(b.subrange(8, 16)), b.subrange(20, b.len() as int)))
    } else {
        Option::None
    }
}

impl EventRecord {
    /// Decodes an event notification, or reports that the bytes do not
    /// match the expected shape.
    pub fn decode(disc: &Vec<u8>, bytes: &Vec<u8>) -> (r: Result<EventRecord, ClientError>)
        requires
            disc@.len() == DISC_LEN,
        ensures
            match r {
                Ok(e) => spec_decode_event(disc@, bytes@) == Option::Some(
                    (e.data as nat, e.label@),
                ),
                Err(e) => e == ClientError::Decode && spec_decode_event(disc@, bytes@) is None,
            },
    {
        if bytes.len() < 20 {
            return Err(ClientError::Decode);
        }
        if !starts_with(bytes, disc) {
            return Err(ClientError::Decode);
        }
        let data = read_le(bytes, 8, 8);
        let label_len = read_le(bytes, 16, 4);
        proof {
            crate::codec::lemma_le_value_bound(bytes@.subrange(16, 20));
            assert(crate::codec::pow256(0) == 1);
            assert(crate::codec::pow256(1) == 256);
            assert(crate::codec::pow256(2) == 0x1_0000);
            assert(crate::codec::pow256(3) == 0x100_0000);
            assert(crate::codec::pow256(4) == 0x1_0000_0000);
        }
        if (bytes.len() as u64) != 20u64 + label_len {
            return Err(ClientError::Decode);
        }
        let label = copy_range(bytes, 20, bytes.len() - 20);
        Ok(EventRecord { data, label })
    }
}

/// Decoding is deterministic: the decoded value is a function of the schema
/// tag and the stored bytes alone, so identical bytes always decode to equal
/// typed values.
pub proof fn lemma_decode_deterministic(disc: Seq<u8>, b1: Seq<u8>, b2: Seq<u8>)
    requires
        b1 == b2,
    ensures
        spec_decode_counter(disc, b1) == spec_decode_counter(disc, b2),
        spec_decode_value_account(disc, b1) == spec_decode_value_account(disc, b2),
        spec_decode_event(disc, b1) == spec_decode_event(disc, b2),
{
}

} // verus!
