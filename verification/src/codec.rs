//! The byte encoding of an escrow record.
//!
//! A record occupies a fixed 75-byte layout: the two 32-byte party
//! identifiers, the amount as 8 little-endian bytes, and one byte per flag
//! (`1` for true, `0` for false), in field order. The encoding is injective,
//! so the same bytes always decode to the same record.

use vstd::prelude::*;
use vstd::bytes::{
    lemma_auto_spec_u64_to_from_le_bytes, spec_u64_from_le_bytes, spec_u64_to_le_bytes,
    u64_from_le_bytes, u64_to_le_bytes,
};
use vstd::slice::slice_subrange;
use crate::state::{EscrowError, EscrowState};

verus! {

broadcast use vstd::array::group_array_axioms;

/// Number of bytes a serialized record occupies: two 32-byte party
/// identifiers, the 8-byte amount, and three flag bytes.
pub const RECORD_LEN: usize = 75;

/// The single byte that encodes a flag.
pub open spec fn flag_byte(b: bool) -> u8 {
    if b {
        1
    } else {
        0
    }
}

/// The encoding of a record: the fields in order, identifiers as raw bytes,
/// the amount little-endian, each flag as one byte.
pub open spec fn spec_serialize(r: EscrowState) -> Seq<u8> {
    r.buyer_pubkey@ + r.seller_pubkey@ + spec_u64_to_le_bytes(r.amount)
        + seq![
        flag_byte(r.buyer_approved),
        flag_byte(r.seller_approved),
        flag_byte(r.settled),
    ]
}

/// The record a byte string decodes to: the unique record whose encoding it
/// is, if any (`lemma_serialize_injective` shows there is at most one).
pub open spec fn spec_deserialize(s: Seq<u8>) -> Option<EscrowState> {
    if exists|r: EscrowState| spec_serialize(r) == s {
        Some(choose|r: EscrowState| spec_serialize(r) == s)
    } else {
        None
    }
}

/// Where each field stands inside the encoding.
pub proof fn lemma_serialize_parts(r: EscrowState)
    ensures
        spec_serialize(r).len() == RECORD_LEN,
        forall|i: int| 0 <= i < 32 ==> #[trigger] spec_serialize(r)[i] == r.buyer_pubkey@[i],
        forall|i: int| 0 <= i < 32 ==> #[trigger] spec_serialize(r)[32 + i] == r.seller_pubkey@[i],
        forall|i: int| 0 <= i < 8 ==> #[trigger] spec_serialize(r)[64 + i] == spec_u64_to_le_bytes(
            r.amount,
        )[i],
        spec_serialize(r)[72] == flag_byte(r.buyer_approved),
        spec_serialize(r)[73] == flag_byte(r.seller_approved),
        spec_serialize(r)[74] == flag_byte(r.settled),
{
    lemma_auto_spec_u64_to_from_le_bytes();
}

/// Two records with the same encoding are the same record.
pub proof fn lemma_serialize_injective(r1: EscrowState, r2: EscrowState)
    requires
        spec_serialize(r1) == spec_serialize(r2),
    ensures
        r1 == r2,
{
    lemma_serialize_parts(r1);
    lemma_serialize_parts(r2);
    lemma_auto_spec_u64_to_from_le_bytes();
    assert forall|i: int| 0 <= i < 32 implies r1.buyer_pubkey@[i] == r2.buyer_pubkey@[i] by {
        assert(spec_serialize(r1)[i] == r1.buyer_pubkey@[i]);
        assert(spec_serialize(r2)[i] == r2.buyer_pubkey@[i]);
    }
    assert forall|i: int| 0 <= i < 32 implies r1.seller_pubkey@[i] == r2.seller_pubkey@[i] by {
        assert(spec_serialize(r1)[32 + i] == r1.seller_pubkey@[i]);
        assert(spec_serialize(r2)[32 + i] == r2.seller_pubkey@[i]);
    }
    assert forall|i: int|
        0 <= i < 8 implies spec_u64_to_le_bytes(r1.amount)[i] == spec_u64_to_le_bytes(
        r2.amount,
    )[i] by {
        assert(spec_serialize(r1)[64 + i] == spec_u64_to_le_bytes(r1.amount)[i]);
        assert(spec_serialize(r2)[64 + i] == spec_u64_to_le_bytes(r2.amount)[i]);
    }
    assert(r1.buyer_pubkey =~= r2.buyer_pubkey);
    assert(r1.seller_pubkey =~= r2.seller_pubkey);
    assert(spec_u64_to_le_bytes(r1.amount) =~= spec_u64_to_le_bytes(r2.amount));
    assert(r1.amount == spec_u64_from_le_bytes(spec_u64_to_le_bytes(r1.amount)));
    assert(r2.amount == spec_u64_from_le_bytes(spec_u64_to_le_bytes(r2.amount)));
}

/// Decoding inverts encoding: every record comes back from its own bytes.
pub proof fn lemma_serialize_deserialize(r: EscrowState)
    ensures
        spec_deserialize(spec_serialize(r)) == Some(r),
{
    assert(exists|x: EscrowState| spec_serialize(x) == spec_serialize(r));
    let c = choose|x: EscrowState| spec_serialize(x) == spec_serialize(r);
    lemma_serialize_injective(c, r);
}

/// Append one 32-byte party identifier to the buffer.
fn push_party_id(out: &mut Vec<u8>, id: &[u8; 32])
    ensures
        final(out)@ == old(out)@ + id@,
{
    let mut i: usize = 0;
    while i < 32
        invariant
            i <= 32,
            out@ == old(out)@ + id@.subrange(0, i as int),
        decreases 32 - i,
    {
        out.push(id[i]);
        proof {
            assert(old(out)@ + id@.subrange(0, i + 1 as int) =~= (old(out)@ + id@.subrange(
                0,
                i as int,
            )).push(id@[i as int]));
        }
        i += 1;
    }
    proof {
        assert(old(out)@ + id@.subrange(0, 32) =~= old(out)@ + id@);
    }
}

impl EscrowState {
    /// Serialize the record into the fixed 75-byte layout.
    pub fn serialize(&self) -> (out: Vec<u8>)
        ensures
            out@ == spec_serialize(*self),
            out@.len() == RECORD_LEN,
    {
        let mut out: Vec<u8> = Vec::new();
        push_party_id(&mut out, &self.buyer_pubkey);
        push_party_id(&mut out, &self.seller_pubkey);
        let mut amount_bytes = u64_to_le_bytes(self.amount);
        out.append(&mut amount_bytes);
        out.push(if self.buyer_approved {
            1
        } else {
            0
        });
        out.push(if self.seller_approved {
            1
        } else {
            0
        });
        out.push(if self.settled {
            1
        } else {
            0
        });
        proof {
            lemma_serialize_parts(*self);
            assert(out@ =~= spec_serialize(*self));
        }
        out
    }

    /// Deserialize a record from its byte encoding. Fails exactly when the
    /// bytes are not the encoding of any record: wrong length, or a flag
    /// byte other than `0` or `1`.
    pub fn deserialize(s: &[u8]) -> (out: Result<EscrowState, EscrowError>)
        ensures
            match out {
                Ok(r) => spec_deserialize(s@) == Some(r) && spec_serialize(r) == s@,
                Err(e) => e == EscrowError::DeserializationFailure && spec_deserialize(s@)
                    is None,
            },
    {
        if s.len() != RECORD_LEN {
            proof {
                assert forall|r: EscrowState| spec_serialize(r) != s@ by {
                    lemma_serialize_parts(r);
                }
            }
            return Err(EscrowError::DeserializationFailure);
        }
        let mut buyer: [u8; 32] = [0; 32];
        let mut i: usize = 0;
        while i < 32
            invariant
                i <= 32,
                s@.len() == RECORD_LEN,
            forall|j: int| 0 <= j < i ==> buyer@[j] == s@[j],
            decreases 32 - i,
        {
            buyer[i] = s[i];
            i += 1;
        }
        let mut seller: [u8; 32] = [0; 32];
        let mut k: usize = 0;
        while k < 32
            invariant
                k <= 32,
                s@.len() == RECORD_LEN,
            forall|j: int| 0 <= j < k ==> seller@[j] == s@[32 + j],
            decreases 32 - k,
        {
            seller[k] = s[32 + k];
            k += 1;
        }
        let amount = u64_from_le_bytes(slice_subrange(s, 64, 72));
        let buyer_flag = s[72];
        let seller_flag = s[73];
        let settled_flag = s[74];
        if buyer_flag > 1 || seller_flag > 1 || settled_flag > 1 {
            proof {
                assert forall|r: EscrowState| spec_serialize(r) != s@ by {
                    lemma_serialize_parts(r);
                }
            }
            return Err(EscrowError::DeserializationFailure);
        }
        let record = EscrowState {
            buyer_pubkey: buyer,
            seller_pubkey: seller,
            amount,
            buyer_approved: buyer_flag == 1,
            seller_approved: seller_flag == 1,
            settled: settled_flag == 1,
        };
        proof {
            lemma_serialize_parts(record);
            lemma_auto_spec_u64_to_from_le_bytes();
            assert(spec_u64_to_le_bytes(record.amount) =~= s@.subrange(64, 72));
            assert(spec_serialize(record) =~= s@);
            let c = choose|r: EscrowState| spec_serialize(r) == s@;
            lemma_serialize_injective(c, record);
        }
        Ok(record)
    }
}

} // verus!
