use escrow::codec::RECORD_LEN;
use escrow::engine::handle;
use escrow::state::{EscrowError, EscrowState};

fn init_instruction(discriminant: u8, amount: u64) -> Vec<u8> {
    let mut v = vec![discriminant];
    v.extend_from_slice(&amount.to_le_bytes());
    v
}

fn fresh_record(amount: u64) -> EscrowState {
    EscrowState {
        buyer_pubkey: [7u8; 32],
        seller_pubkey: [9u8; 32],
        amount,
        buyer_approved: false,
        seller_approved: false,
        settled: false,
    }
}

#[test]
fn initialize_empty_slot() {
    let mut slot: Vec<u8> = Vec::new();
    let buyer = [1u8; 32];
    let seller = [2u8; 32];
    let out = handle(&mut slot, &buyer, &seller, &init_instruction(1, 1000));
    assert!(matches!(out, Ok(None)));
    assert_eq!(slot.len(), RECORD_LEN);
    let rec = EscrowState::deserialize(&slot).unwrap();
    assert_eq!(rec.buyer_pubkey, buyer);
    assert_eq!(rec.seller_pubkey, seller);
    assert_eq!(rec.amount, 1000);
    assert!(!rec.buyer_approved);
    assert!(!rec.seller_approved);
    assert!(!rec.settled);
}

#[test]
fn initialize_with_seller_discriminant() {
    // Initialization reads only the amount; the discriminant byte is not an
    // approval on an empty slot.
    let mut slot: Vec<u8> = Vec::new();
    let out = handle(&mut slot, &[1u8; 32], &[2u8; 32], &init_instruction(0, 42));
    assert!(matches!(out, Ok(None)));
    let rec = EscrowState::deserialize(&slot).unwrap();
    assert_eq!(rec.amount, 42);
    assert!(!rec.buyer_approved);
    assert!(!rec.seller_approved);
}

#[test]
fn amount_decodes_little_endian() {
    let mut slot: Vec<u8> = Vec::new();
    let instr = vec![1u8, 8, 7, 6, 5, 4, 3, 2, 1];
    handle(&mut slot, &[1u8; 32], &[2u8; 32], &instr).unwrap();
    let rec = EscrowState::deserialize(&slot).unwrap();
    assert_eq!(rec.amount, 0x0102030405060708u64);
}

#[test]
fn malformed_init_rejected_slot_stays_empty() {
    let mut slot: Vec<u8> = Vec::new();
    let out = handle(&mut slot, &[1u8; 32], &[2u8; 32], &[1, 0, 0]);
    assert_eq!(out, Err(EscrowError::MalformedInstruction));
    assert!(slot.is_empty());
}

#[test]
fn empty_instruction_on_nonempty_slot_rejected() {
    let mut slot = fresh_record(10).serialize();
    let before = slot.clone();
    let out = handle(&mut slot, &[7u8; 32], &[9u8; 32], &[]);
    assert_eq!(out, Err(EscrowError::MalformedInstruction));
    assert_eq!(slot, before);
}

#[test]
fn buyer_then_seller_settles_exactly_once() {
    let mut slot: Vec<u8> = Vec::new();
    let buyer = [3u8; 32];
    let seller = [4u8; 32];
    handle(&mut slot, &buyer, &seller, &init_instruction(1, 1000)).unwrap();

    let out = handle(&mut slot, &buyer, &seller, &[1]).unwrap();
    assert!(out.is_none());
    let rec = EscrowState::deserialize(&slot).unwrap();
    assert!(rec.buyer_approved);
    assert!(!rec.seller_approved);
    assert!(!rec.settled);

    let action = handle(&mut slot, &buyer, &seller, &[0]).unwrap().expect("transfer");
    assert_eq!(action.to, seller);
    assert_eq!(action.amount, 1000);
    let rec = EscrowState::deserialize(&slot).unwrap();
    assert!(rec.buyer_approved);
    assert!(rec.seller_approved);
    assert!(rec.settled);

    // A further approval must not request a second transfer.
    let out = handle(&mut slot, &buyer, &seller, &[1]).unwrap();
    assert!(out.is_none());
    let after = EscrowState::deserialize(&slot).unwrap();
    assert!(after.buyer_approved);
    assert!(after.seller_approved);
    assert!(after.settled);
}

#[test]
fn seller_then_buyer_settles_identically() {
    let mut slot: Vec<u8> = Vec::new();
    let buyer = [3u8; 32];
    let seller = [4u8; 32];
    handle(&mut slot, &buyer, &seller, &init_instruction(1, 1000)).unwrap();

    let out = handle(&mut slot, &buyer, &seller, &[0]).unwrap();
    assert!(out.is_none());

    let action = handle(&mut slot, &buyer, &seller, &[1]).unwrap().expect("transfer");
    assert_eq!(action.to, seller);
    assert_eq!(action.amount, 1000);
    let rec = EscrowState::deserialize(&slot).unwrap();
    assert!(rec.buyer_approved);
    assert!(rec.seller_approved);
    assert!(rec.settled);
}

#[test]
fn repeated_buyer_approval_is_idempotent() {
    let mut slot: Vec<u8> = Vec::new();
    let buyer = [3u8; 32];
    let seller = [4u8; 32];
    handle(&mut slot, &buyer, &seller, &init_instruction(1, 55)).unwrap();

    assert!(handle(&mut slot, &buyer, &seller, &[1]).unwrap().is_none());
    let first = EscrowState::deserialize(&slot).unwrap();
    assert!(handle(&mut slot, &buyer, &seller, &[1]).unwrap().is_none());
    let second = EscrowState::deserialize(&slot).unwrap();

    assert!(second.buyer_approved);
    assert!(!second.seller_approved);
    assert_eq!(first.buyer_approved, second.buyer_approved);
    assert_eq!(first.seller_approved, second.seller_approved);
    assert_eq!(first.settled, second.settled);
}

#[test]
fn init_shaped_instruction_after_init_is_an_approval() {
    let mut slot: Vec<u8> = Vec::new();
    let buyer = [3u8; 32];
    let seller = [4u8; 32];
    handle(&mut slot, &buyer, &seller, &init_instruction(1, 1000)).unwrap();

    // Same initialization-shaped bytes again, with a different amount: the
    // slot is no longer empty, so this is a buyer approval and the held
    // amount and parties stay what the first call set.
    let out = handle(&mut slot, &buyer, &seller, &init_instruction(1, 5000)).unwrap();
    assert!(out.is_none());
    let rec = EscrowState::deserialize(&slot).unwrap();
    assert_eq!(rec.amount, 1000);
    assert_eq!(rec.buyer_pubkey, buyer);
    assert_eq!(rec.seller_pubkey, seller);
    assert!(rec.buyer_approved);
    assert!(!rec.seller_approved);
}

#[test]
fn approval_on_uninitialized_record_rejected() {
    let mut slot = fresh_record(0).serialize();
    let before = slot.clone();
    let out = handle(&mut slot, &[7u8; 32], &[9u8; 32], &[1]);
    assert_eq!(out, Err(EscrowError::UninitializedAccount));
    assert_eq!(slot, before);
}

#[test]
fn garbage_slot_rejected() {
    let mut slot = vec![5u8; 10];
    let before = slot.clone();
    let out = handle(&mut slot, &[7u8; 32], &[9u8; 32], &[1]);
    assert_eq!(out, Err(EscrowError::DeserializationFailure));
    assert_eq!(slot, before);
}

#[test]
fn bad_flag_byte_rejected() {
    let mut slot = fresh_record(10).serialize();
    slot[RECORD_LEN - 1] = 2;
    let out = handle(&mut slot, &[7u8; 32], &[9u8; 32], &[1]);
    assert_eq!(out, Err(EscrowError::DeserializationFailure));
}

#[test]
fn serialize_deserialize_round_trip() {
    let rec = EscrowState {
        buyer_pubkey: [0xAA; 32],
        seller_pubkey: [0xBB; 32],
        amount: u64::MAX,
        buyer_approved: true,
        seller_approved: false,
        settled: false,
    };
    let bytes = rec.serialize();
    assert_eq!(bytes.len(), RECORD_LEN);
    let back = EscrowState::deserialize(&bytes).unwrap();
    assert_eq!(back.buyer_pubkey, rec.buyer_pubkey);
    assert_eq!(back.seller_pubkey, rec.seller_pubkey);
    assert_eq!(back.amount, rec.amount);
    assert_eq!(back.buyer_approved, rec.buyer_approved);
    assert_eq!(back.seller_approved, rec.seller_approved);
    assert_eq!(back.settled, rec.settled);
}

#[test]
fn is_initialized_tracks_amount() {
    assert!(fresh_record(1).is_initialized());
    assert!(!fresh_record(0).is_initialized());
}

#[test]
fn approve_records_one_party_and_gates_transfer() {
    let rec = fresh_record(500);
    let (buyer_approved, none_yet) = rec.approve(true);
    assert!(buyer_approved.buyer_approved);
    assert!(!buyer_approved.seller_approved);
    assert!(none_yet.is_none());

    let (settled, action) = buyer_approved.approve(false);
    assert!(settled.buyer_approved);
    assert!(settled.seller_approved);
    assert!(settled.settled);
    let action = action.expect("transfer");
    assert_eq!(action.to, rec.seller_pubkey);
    assert_eq!(action.amount, 500);

    let (again, no_more) = settled.approve(true);
    assert!(again.settled);
    assert!(no_more.is_none());
}
