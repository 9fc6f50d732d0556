//! The escrow record and its state transitions.

use vstd::prelude::*;

verus! {

/// The errors the protocol can surface. Every error aborts the instruction:
/// the engine leaves the storage slot unchanged whenever it returns one.
#[derive(Clone, Copy, PartialEq, Eq, Structural, Debug)]
pub enum EscrowError {
    /// The instruction bytes are too short for the fields required in the
    /// slot's current state.
    MalformedInstruction,
    /// The slot's bytes are not a valid encoding of a record.
    DeserializationFailure,
    /// The slot parses but holds a record with `amount == 0`, which
    /// represents no real escrow.
    UninitializedAccount,
    /// The host's fund-transfer capability failed. The engine never produces
    /// this itself — the host performs the requested transfer after the
    /// engine returns — but it belongs to the protocol's error taxonomy for
    /// hosts that surface every failure of an instruction as one of these.
    TransferFailure,
}

/// A request the engine hands back to its host: move `amount` units from the
/// escrow's custody to the party identified by `to`.
#[derive(Clone, Copy, PartialEq, Eq, Debug)]
pub struct TransferAction {
    pub to: [u8; 32],
    pub amount: u64,
}

/// The persisted state of one escrow agreement between two parties,
/// identified by fixed-size 32-byte keys.
#[derive(Clone, Copy, Debug)]
pub struct EscrowState {
    pub buyer_pubkey: [u8; 32],
    pub seller_pubkey: [u8; 32],
    pub amount: u64,
    pub buyer_approved: bool,
    pub seller_approved: bool,
    /// True once the held amount has been released to the seller; it gates
    /// the transfer so that settlement happens at most once per record.
    pub settled: bool,
}

impl EscrowState {
    /// A record is initialized iff it holds a positive amount.
    pub open spec fn spec_is_initialized(&self) -> bool {
        self.amount > 0
    }

    #[verifier::when_used_as_spec(spec_is_initialized)]
    pub fn is_initialized(&self) -> (r: bool)
        ensures
            r == self.spec_is_initialized(),
    {
        self.amount > 0
    }

    /// The record after one party's approval is recorded: the named flag is
    /// set, everything else is untouched.
    pub open spec fn approved(self, is_buyer: bool) -> EscrowState {
        if is_buyer {
            EscrowState { buyer_approved: true, ..self }
        } else {
            EscrowState { seller_approved: true, ..self }
        }
    }

    /// Settlement fires on this approval iff afterwards both parties have
    /// approved and the record was not already settled.
    pub open spec fn fires(self, is_buyer: bool) -> bool {
        let a = self.approved(is_buyer);
        a.buyer_approved && a.seller_approved && !a.settled
    }

    /// The record after a whole approval step: the approval is recorded, and
    /// if settlement fires, the record is marked settled atomically with the
    /// transfer request.
    pub open spec fn stepped(self, is_buyer: bool) -> EscrowState {
        let a = self.approved(is_buyer);
        if self.fires(is_buyer) {
            EscrowState { settled: true, ..a }
        } else {
            a
        }
    }

    /// The transfer an approval step requests of the host: the full held
    /// amount to the seller when settlement fires, and nothing otherwise.
    pub open spec fn transfer_action(self, is_buyer: bool) -> Option<TransferAction> {
        if self.fires(is_buyer) {
            Some(TransferAction { to: self.seller_pubkey, amount: self.amount })
        } else {
            None
        }
    }

    /// Record one approval (`is_buyer` attributes it to the buyer or the
    /// seller) and decide whether the held amount must now be released.
    pub fn approve(&self, is_buyer: bool) -> (out: (EscrowState, Option<TransferAction>))
        ensures
            out.0 == self.stepped(is_buyer),
            out.1 == self.transfer_action(is_buyer),
    {
        let mut updated = *self;
        if is_buyer {
            updated.buyer_approved = true;
        } else {
            updated.seller_approved = true;
        }
        if updated.buyer_approved && updated.seller_approved && !updated.settled {
            updated.settled = true;
            (updated, Some(TransferAction { to: self.seller_pubkey, amount: self.amount }))
        } else {
            (updated, None)
        }
    }
}

} // verus!
