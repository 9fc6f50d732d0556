//! The escrow engine: one instruction applied to one storage slot.
//!
//! Byte 0 of an instruction is a discriminant: `1` attributes the approval
//! to the buyer, any other value to the seller. When the slot is empty, the
//! instruction instead initializes it, and bytes 1..9 encode the held amount
//! as an unsigned 64-bit little-endian integer. Attributing an approval to
//! the right party (authentication) is the host's responsibility.

use vstd::prelude::*;
use vstd::bytes::{spec_u64_from_le_bytes, u64_from_le_bytes};
use vstd::slice::{slice_index_get, slice_subrange};
use crate::codec::{spec_deserialize, spec_serialize};
use crate::state::{EscrowError, EscrowState, TransferAction};

verus! {

/// The record an instruction writes into an empty slot: the two parties as
/// given, the amount from the instruction's bytes 1..9, nothing approved,
/// nothing settled.
pub open spec fn initial_record(buyer: [u8; 32], seller: [u8; 32], instr: Seq<u8>) -> EscrowState {
    EscrowState {
        buyer_pubkey: buyer,
        seller_pubkey: seller,
        amount: spec_u64_from_le_bytes(instr.subrange(1, 9)),
        buyer_approved: false,
        seller_approved: false,
        settled: false,
    }
}

/// What one instruction does: maps the slot's bytes, the two party
/// identifiers and the instruction's bytes to the slot's new bytes and the
/// outcome. On every error the slot is left unchanged.
pub open spec fn spec_handle(
    slot: Seq<u8>,
    buyer: [u8; 32],
    seller: [u8; 32],
    instr: Seq<u8>,
) -> (Seq<u8>, Result<Option<TransferAction>, EscrowError>) {
    if slot.len() == 0 {
        if instr.len() < 9 {
            (slot, Err(EscrowError::MalformedInstruction))
        } else {
            (spec_serialize(initial_record(buyer, seller, instr)), Ok(None))
        }
    } else if instr.len() == 0 {
        (slot, Err(EscrowError::MalformedInstruction))
    } else {
        match spec_deserialize(slot) {
            Option::None => (slot, Err(EscrowError::DeserializationFailure)),
            Option::Some(r) => {
                if r.amount == 0 {
                    (slot, Err(EscrowError::UninitializedAccount))
                } else {
                    let is_buyer = instr[0] == 1;
                    (spec_serialize(r.stepped(is_buyer)), Ok(r.transfer_action(is_buyer)))
                }
            },
        }
    }
}

/// Apply one instruction to the storage slot.
///
/// An empty slot is initialized from the instruction (no transfer can occur
/// on initialization); a non-empty slot records the approval the instruction
/// carries, and the returned action, if any, asks the host to move the held
/// amount to the seller. Any error leaves the slot exactly as it was.
pub fn handle(
    slot: &mut Vec<u8>,
    buyer: &[u8; 32],
    seller: &[u8; 32],
    instruction: &[u8],
) -> (out: Result<Option<TransferAction>, EscrowError>)
    ensures
        (final(slot)@, out) == spec_handle(old(slot)@, *buyer, *seller, instruction@),
{
    if slot.len() == 0 {
        if instruction.len() < 9 {
            return Err(EscrowError::MalformedInstruction);
        }
        let amount = u64_from_le_bytes(slice_subrange(instruction, 1, 9));
        let record = EscrowState {
            buyer_pubkey: *buyer,
            seller_pubkey: *seller,
            amount,
            buyer_approved: false,
            seller_approved: false,
            settled: false,
        };
        *slot = record.serialize();
        Ok(None)
    } else {
        if instruction.len() == 0 {
            return Err(EscrowError::MalformedInstruction);
        }
        let record = match EscrowState::deserialize(slot.as_slice()) {
            Ok(r) => r,
            Err(e) => { return Err(e); },
        };
        if !record.is_initialized() {
            return Err(EscrowError::UninitializedAccount);
        }
        let is_buyer = *slice_index_get(instruction, 0) == 1;
        let (updated, action) = record.approve(is_buyer);
        *slot = updated.serialize();
        Ok(action)
    }
}

} // verus!
