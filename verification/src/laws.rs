//! The guarantees of the escrow protocol, stated and proved once for all
//! records, slots and instructions.

use vstd::prelude::*;
use crate::codec::{
    lemma_serialize_deserialize, lemma_serialize_parts, spec_deserialize, spec_serialize,
};
use crate::engine::{initial_record, spec_handle};
use crate::state::{EscrowError, EscrowState, TransferAction};

verus! {

/// One approval step never changes the parties or the held amount: once a
/// record exists, its identity is immutable.
pub proof fn lemma_identity_immutable(r: EscrowState, is_buyer: bool)
    ensures
        r.stepped(is_buyer).buyer_pubkey == r.buyer_pubkey,
        r.stepped(is_buyer).seller_pubkey == r.seller_pubkey,
        r.stepped(is_buyer).amount == r.amount,
{
}

/// Initialization happens exactly once: a successful call on an empty slot
/// initializes it without any transfer and leaves it non-empty, so every
/// later call — even one shaped like an initialization — takes the approval
/// path, and the slot keeps the parties and the amount of the first call.
pub proof fn lemma_init_exactly_once(
    slot: Seq<u8>,
    buyer: [u8; 32],
    seller: [u8; 32],
    init_instr: Seq<u8>,
    buyer2: [u8; 32],
    seller2: [u8; 32],
    next_instr: Seq<u8>,
)
    requires
        slot.len() == 0,
        init_instr.len() >= 9,
    ensures
        spec_handle(slot, buyer, seller, init_instr).1 == Ok::<
            Option<TransferAction>,
            EscrowError,
        >(None),
        spec_handle(slot, buyer, seller, init_instr).0.len() > 0,
        ({
            let created = initial_record(buyer, seller, init_instr);
            let after = spec_handle(
                spec_handle(slot, buyer, seller, init_instr).0,
                buyer2,
                seller2,
                next_instr,
            );
            after.1 is Ok ==> (spec_deserialize(after.0) matches Some(rec)
                && rec.buyer_pubkey == created.buyer_pubkey
                && rec.seller_pubkey == created.seller_pubkey
                && rec.amount == created.amount)
        }),
{
    let created = initial_record(buyer, seller, init_instr);
    lemma_serialize_parts(created);
    lemma_serialize_deserialize(created);
    let after = spec_handle(spec_serialize(created), buyer2, seller2, next_instr);
    if after.1 is Ok {
        let is_buyer = next_instr[0] == 1;
        lemma_serialize_deserialize(created.stepped(is_buyer));
        lemma_identity_immutable(created, is_buyer);
    }
}

/// A repeated single-party approval is idempotent: after the buyer approves,
/// approving again leaves `buyer_approved` true and the seller's flag
/// untouched, and, as long as the seller has not approved, neither call
/// requests a transfer.
pub proof fn lemma_buyer_approval_idempotent(r: EscrowState)
    requires
        !r.seller_approved,
    ensures
        r.stepped(true).buyer_approved,
        r.stepped(true).seller_approved == r.seller_approved,
        r.stepped(true).stepped(true) == r.stepped(true),
        r.transfer_action(true) is None,
        r.stepped(true).transfer_action(true) is None,
{
}

/// Transfer gating: an approval requests a transfer exactly when both flags
/// are true afterwards and the record was not already settled; the request
/// then moves the full held amount to the seller, and the record comes out
/// settled.
pub proof fn lemma_transfer_gating(r: EscrowState, is_buyer: bool)
    ensures
        r.transfer_action(is_buyer) is Some <==> (r.stepped(is_buyer).buyer_approved
            && r.stepped(is_buyer).seller_approved && !r.settled),
        r.transfer_action(is_buyer) is Some ==> r.transfer_action(is_buyer) == Some(
            TransferAction { to: r.seller_pubkey, amount: r.amount },
        ) && r.stepped(is_buyer).settled,
{
}

/// The order of the two approvals does not matter: buyer-then-seller and
/// seller-then-buyer reach the same record, and either order requests
/// exactly one transfer — none on the first approval, the full held amount
/// to the seller on the second.
pub proof fn lemma_approval_order_irrelevant(r: EscrowState)
    requires
        !r.buyer_approved,
        !r.seller_approved,
        !r.settled,
    ensures
        r.stepped(true).stepped(false) == r.stepped(false).stepped(true),
        r.transfer_action(true) is None,
        r.transfer_action(false) is None,
        r.stepped(true).transfer_action(false) == Some(
            TransferAction { to: r.seller_pubkey, amount: r.amount },
        ),
        r.stepped(false).transfer_action(true) == Some(
            TransferAction { to: r.seller_pubkey, amount: r.amount },
        ),
{
}

/// No double transfer: once a record is settled, no further approval ever
/// requests a transfer, and the record stays settled.
pub proof fn lemma_no_double_transfer(r: EscrowState, is_buyer: bool)
    requires
        r.settled,
    ensures
        r.transfer_action(is_buyer) is None,
        r.stepped(is_buyer).settled,
{
}

/// No double transfer across instructions: once a call on a slot requests
/// the transfer, no later successful call on the bytes it wrote requests
/// another, whatever that call's instruction says.
pub proof fn lemma_no_double_transfer_on_slot(
    slot: Seq<u8>,
    buyer: [u8; 32],
    seller: [u8; 32],
    instr: Seq<u8>,
    buyer2: [u8; 32],
    seller2: [u8; 32],
    instr2: Seq<u8>,
)
    requires
        spec_handle(slot, buyer, seller, instr).1 matches Ok(a) && a is Some,
    ensures
        ({
            let after = spec_handle(
                spec_handle(slot, buyer, seller, instr).0,
                buyer2,
                seller2,
                instr2,
            );
            after.1 matches Ok(a2) ==> a2 is None
        }),
{
    match spec_deserialize(slot) {
        Option::Some(r) => {
            let is_buyer = instr[0] == 1;
            lemma_serialize_deserialize(r.stepped(is_buyer));
            assert(r.stepped(is_buyer).settled);
            lemma_no_double_transfer(r.stepped(is_buyer), instr2[0] == 1);
        },
        Option::None => {
            // Only an approval call can request a transfer, and an approval
            // call succeeds only on a slot that deserializes.
            assert(false);
        },
    }
}

/// An initialization with fewer than 9 bytes of instruction data is rejected
/// as malformed, and the slot stays empty.
pub proof fn lemma_malformed_init_rejected(
    slot: Seq<u8>,
    buyer: [u8; 32],
    seller: [u8; 32],
    instr: Seq<u8>,
)
    requires
        slot.len() == 0,
        instr.len() < 9,
    ensures
        spec_handle(slot, buyer, seller, instr) == (
            slot,
            Err::<Option<TransferAction>, EscrowError>(EscrowError::MalformedInstruction),
        ),
{
}

} // verus!
