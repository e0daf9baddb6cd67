use escrow::{
    apply_cancel, apply_create, apply_refund, apply_release, cancel_escrow, create_escrow,
    derive_address, refund_escrow, release_funds, transfer, verify_address, CancelEscrow,
    CreateEscrow, ErrorCode, EscrowState, EscrowVault, Pubkey, RefundEscrow, ReleaseFunds, Wallet,
    ESCROW_SEED,
};

fn key(b: u8) -> Pubkey {
    Pubkey::new_from_array([b; 32])
}

fn program() -> Pubkey {
    key(7)
}

fn buyer_key() -> Pubkey {
    key(1)
}

fn seller_key() -> Pubkey {
    key(2)
}

fn escrow_address() -> Pubkey {
    derive_address(&program(), &buyer_key()).expect("an escrow address").0
}

fn create_ctx(buyer_lamports: u64) -> CreateEscrow {
    CreateEscrow {
        program_id: program(),
        escrow: escrow_address(),
        buyer: Wallet { key: buyer_key(), lamports: buyer_lamports },
    }
}

fn funded(amount: u64, buyer_lamports: u64) -> (EscrowVault, Wallet) {
    let mut ctx = create_ctx(buyer_lamports);
    let vault = create_escrow(&mut ctx, seller_key(), amount).expect("creation succeeds");
    (vault, ctx.buyer)
}

fn release_ctx(vault: EscrowVault, seller_lamports: u64) -> ReleaseFunds {
    ReleaseFunds {
        program_id: program(),
        escrow: vault,
        buyer: buyer_key(),
        seller: Wallet { key: seller_key(), lamports: seller_lamports },
    }
}

#[test]
fn derived_address_matches_solana_derivation() {
    let buyer = buyer_key();
    let expected = anchor_lang::prelude::Pubkey::find_program_address(
        &[b"escrow", &buyer.to_bytes()],
        &anchor_lang::prelude::Pubkey::new_from_array(program().to_bytes()),
    );
    let (k, bump) = derive_address(&program(), &buyer).unwrap();
    assert_eq!(k.to_bytes(), expected.0.to_bytes());
    assert_eq!(bump, expected.1);
    assert_ne!(k, buyer);
    assert_eq!(ESCROW_SEED, *b"escrow");
}

#[test]
fn verify_address_accepts_only_the_derived_address() {
    let (k, bump) = derive_address(&program(), &buyer_key()).unwrap();
    assert!(verify_address(&k, &program(), &buyer_key(), bump));
    assert!(!verify_address(&buyer_key(), &program(), &buyer_key(), bump));
    assert!(!verify_address(&k, &program(), &seller_key(), bump));
    assert!(!verify_address(&k, &key(8), &buyer_key(), bump));
}

#[test]
fn creation_moves_amount_into_custody() {
    let mut ctx = create_ctx(1_000);
    let vault = create_escrow(&mut ctx, seller_key(), 100).unwrap();
    assert_eq!(vault.lamports, 100);
    assert_eq!(ctx.buyer.lamports, 900);
    assert_eq!(vault.key, escrow_address());
    assert_eq!(vault.data.buyer, buyer_key());
    assert_eq!(vault.data.seller, seller_key());
    assert_eq!(vault.data.amount, 100);
    assert_eq!(vault.data.state, EscrowState::Active);
    assert_eq!(vault.data.bump, derive_address(&program(), &buyer_key()).unwrap().1);
}

#[test]
fn creation_of_zero_is_refused() {
    let mut ctx = create_ctx(1_000);
    let before = ctx;
    assert_eq!(create_escrow(&mut ctx, seller_key(), 0), Err(ErrorCode::InvalidAmount));
    assert_eq!(ctx, before);
}

#[test]
fn creation_at_a_foreign_address_is_refused() {
    let mut ctx = create_ctx(1_000);
    ctx.escrow = key(9);
    let before = ctx;
    assert_eq!(create_escrow(&mut ctx, seller_key(), 5), Err(ErrorCode::InvalidAddress));
    assert_eq!(ctx, before);
}

#[test]
fn creation_beyond_the_buyers_balance_is_refused() {
    let mut ctx = create_ctx(50);
    let before = ctx;
    assert_eq!(create_escrow(&mut ctx, seller_key(), 51), Err(ErrorCode::InsufficientFunds));
    assert_eq!(ctx, before);
    assert!(create_escrow(&mut ctx, seller_key(), 50).is_ok());
    assert_eq!(ctx.buyer.lamports, 0);
}

#[test]
fn apply_create_uses_what_derivation_found() {
    let mut ctx = create_ctx(10);
    assert_eq!(apply_create(&mut ctx, seller_key(), 3, None), Err(ErrorCode::InvalidAddress));
    assert_eq!(
        apply_create(&mut ctx, seller_key(), 3, Some((key(3), 200))),
        Err(ErrorCode::InvalidAddress)
    );
    let address = ctx.escrow;
    let vault = apply_create(&mut ctx, seller_key(), 3, Some((address, 200))).unwrap();
    assert_eq!(vault.data.bump, 200);
    assert_eq!(vault.lamports, 3);
    assert_eq!(ctx.buyer.lamports, 7);
}

#[test]
fn release_round_trip_pays_the_seller() {
    let (vault, _) = funded(100, 1_000);
    let mut ctx = release_ctx(vault, 20);
    assert_eq!(release_funds(&mut ctx), Ok(()));
    assert_eq!(ctx.seller.lamports, 120);
    assert_eq!(ctx.escrow.lamports, 0);
    assert_eq!(ctx.escrow.data.state, EscrowState::Completed);
}

#[test]
fn refund_round_trip_returns_the_buyers_funds() {
    let (vault, buyer) = funded(100, 1_000);
    let mut ctx = RefundEscrow { program_id: program(), escrow: vault, buyer };
    assert_eq!(refund_escrow(&mut ctx), Ok(()));
    assert_eq!(ctx.buyer.lamports, 1_000);
    assert_eq!(ctx.escrow.lamports, 0);
    assert_eq!(ctx.escrow.data.state, EscrowState::Refunded);
}

#[test]
fn cancel_returns_the_buyers_funds() {
    let (vault, buyer) = funded(100, 1_000);
    let mut ctx = CancelEscrow { program_id: program(), escrow: vault, buyer };
    assert_eq!(cancel_escrow(&mut ctx), Ok(()));
    assert_eq!(ctx.buyer.lamports, 1_000);
    assert_eq!(ctx.escrow.lamports, 0);
    assert_eq!(ctx.escrow.data.state, EscrowState::Cancelled);
}

#[test]
fn release_twice_pays_once() {
    let (vault, _) = funded(100, 1_000);
    let mut ctx = release_ctx(vault, 0);
    assert_eq!(release_funds(&mut ctx), Ok(()));
    let after_first = ctx;
    assert_eq!(release_funds(&mut ctx), Err(ErrorCode::InvalidState));
    assert_eq!(ctx, after_first);
    assert_eq!(ctx.seller.lamports, 100);
}

#[test]
fn only_one_settlement_succeeds() {
    let (vault, buyer) = funded(100, 1_000);
    let mut rel = release_ctx(vault, 0);
    assert_eq!(release_funds(&mut rel), Ok(()));
    let mut refund = RefundEscrow { program_id: program(), escrow: rel.escrow, buyer };
    assert_eq!(refund_escrow(&mut refund), Err(ErrorCode::InvalidState));
    let mut cancel = CancelEscrow { program_id: program(), escrow: rel.escrow, buyer };
    assert_eq!(cancel_escrow(&mut cancel), Err(ErrorCode::InvalidState));
    assert_eq!(cancel.buyer.lamports, 900);

    let (vault, buyer) = funded(100, 1_000);
    let mut cancel = CancelEscrow { program_id: program(), escrow: vault, buyer };
    assert_eq!(cancel_escrow(&mut cancel), Ok(()));
    let mut rel = release_ctx(cancel.escrow, 0);
    assert_eq!(release_funds(&mut rel), Err(ErrorCode::InvalidState));
    let mut refund = RefundEscrow { program_id: program(), escrow: cancel.escrow, buyer: cancel.buyer };
    assert_eq!(refund_escrow(&mut refund), Err(ErrorCode::InvalidState));
    assert_eq!(refund.buyer.lamports, 1_000);
}

#[test]
fn release_to_a_foreign_seller_is_refused() {
    let (vault, _) = funded(100, 1_000);
    let mut ctx = release_ctx(vault, 5);
    ctx.seller.key = key(3);
    let before = ctx;
    assert_eq!(release_funds(&mut ctx), Err(ErrorCode::InvalidSeller));
    assert_eq!(ctx, before);
}

#[test]
fn settlement_by_a_stranger_is_refused() {
    let (vault, buyer) = funded(100, 1_000);
    let mut rel = release_ctx(vault, 5);
    rel.buyer = key(4);
    let before = rel;
    assert_eq!(release_funds(&mut rel), Err(ErrorCode::Unauthorized));
    assert_eq!(rel, before);

    let stranger = Wallet { key: key(4), lamports: 10 };
    let mut refund = RefundEscrow { program_id: program(), escrow: vault, buyer: stranger };
    assert_eq!(refund_escrow(&mut refund), Err(ErrorCode::Unauthorized));
    assert_eq!(refund.escrow, vault);
    assert_eq!(refund.buyer, stranger);

    let mut cancel = CancelEscrow { program_id: program(), escrow: vault, buyer: stranger };
    assert_eq!(cancel_escrow(&mut cancel), Err(ErrorCode::Unauthorized));
    assert_eq!(cancel.escrow.data.state, EscrowState::Active);
    assert_ne!(buyer.key, stranger.key);
}

#[test]
fn tampered_address_is_refused() {
    let (mut vault, buyer) = funded(100, 1_000);
    vault.data.bump = vault.data.bump.wrapping_sub(1);
    let mut refund = RefundEscrow { program_id: program(), escrow: vault, buyer };
    assert_eq!(refund_escrow(&mut refund), Err(ErrorCode::InvalidAddress));

    let (mut vault, _) = funded(100, 1_000);
    vault.key = key(9);
    let mut rel = release_ctx(vault, 0);
    assert_eq!(release_funds(&mut rel), Err(ErrorCode::InvalidAddress));
    assert_eq!(rel.escrow.lamports, 100);

    let (vault, buyer) = funded(100, 1_000);
    let mut cancel = CancelEscrow { program_id: key(8), escrow: vault, buyer };
    assert_eq!(cancel_escrow(&mut cancel), Err(ErrorCode::InvalidAddress));
}

#[test]
fn drained_escrow_cannot_pay_out() {
    let (mut vault, buyer) = funded(100, 1_000);
    vault.lamports = 99;
    let mut rel = release_ctx(vault, 0);
    assert_eq!(release_funds(&mut rel), Err(ErrorCode::InsufficientFunds));
    assert_eq!(rel.escrow.data.state, EscrowState::Active);
    let mut refund = RefundEscrow { program_id: program(), escrow: vault, buyer };
    assert_eq!(refund_escrow(&mut refund), Err(ErrorCode::InsufficientFunds));
    assert_eq!(refund.buyer.lamports, 900);
}

#[test]
fn topped_up_escrow_pays_only_its_amount() {
    let (mut vault, _) = funded(100, 1_000);
    vault.lamports = 130;
    let mut rel = release_ctx(vault, 0);
    assert_eq!(release_funds(&mut rel), Ok(()));
    assert_eq!(rel.escrow.lamports, 30);
    assert_eq!(rel.seller.lamports, 100);
}

#[test]
fn apply_functions_follow_the_guard_order() {
    let (vault, buyer) = funded(100, 1_000);
    let mut rel = release_ctx(vault, 0);
    rel.buyer = key(4);
    rel.seller.key = key(3);
    assert_eq!(apply_release(&mut rel, false), Err(ErrorCode::InvalidAddress));
    assert_eq!(apply_release(&mut rel, true), Err(ErrorCode::Unauthorized));
    rel.buyer = buyer_key();
    assert_eq!(apply_release(&mut rel, true), Err(ErrorCode::InvalidSeller));
    rel.seller.key = seller_key();
    assert_eq!(apply_release(&mut rel, false), Err(ErrorCode::InvalidAddress));
    assert_eq!(apply_release(&mut rel, true), Ok(()));
    assert_eq!(apply_release(&mut rel, true), Err(ErrorCode::InvalidState));

    let mut refund = RefundEscrow { program_id: program(), escrow: vault, buyer };
    assert_eq!(apply_refund(&mut refund, false), Err(ErrorCode::InvalidAddress));
    assert_eq!(apply_refund(&mut refund, true), Ok(()));
    assert_eq!(refund.escrow.data.state, EscrowState::Refunded);
    assert_eq!(apply_refund(&mut refund, true), Err(ErrorCode::InvalidState));

    let mut cancel = CancelEscrow { program_id: key(8), escrow: vault, buyer };
    assert_eq!(apply_cancel(&mut cancel, true), Ok(()));
    assert_eq!(cancel.escrow.data.state, EscrowState::Cancelled);
    assert_eq!(cancel.buyer.lamports, 1_000);
}

#[test]
fn transfer_is_all_or_nothing() {
    let mut from: u64 = 10;
    let mut to: u64 = 5;
    assert_eq!(transfer(&mut from, &mut to, 11), Err(ErrorCode::InsufficientFunds));
    assert_eq!((from, to), (10, 5));
    assert_eq!(transfer(&mut from, &mut to, 10), Ok(()));
    assert_eq!((from, to), (0, 15));
    assert_eq!(transfer(&mut from, &mut to, 0), Ok(()));
    assert_eq!((from, to), (0, 15));
}

#[test]
fn keys_compare_by_bytes() {
    let mut bytes = [1u8; 32];
    assert!(key(1).same_as(&Pubkey::new_from_array(bytes)));
    bytes[31] = 2;
    assert!(!key(1).same_as(&Pubkey::new_from_array(bytes)));
    assert_eq!(Pubkey::new_from_array(bytes).to_bytes(), bytes);
}

#[test]
fn error_messages() {
    assert_eq!(ErrorCode::InvalidAmount.message(), "Invalid amount: must be greater than 0");
    assert_eq!(
        ErrorCode::InsufficientFunds.message(),
        "Insufficient funds: escrow does not have enough lamports"
    );
    assert!(ErrorCode::InvalidAddress.message().starts_with("Invalid address"));
}

#[test]
fn every_error_has_its_message() {
    assert_eq!(
        ErrorCode::InvalidState.message(),
        "Invalid state: operation not allowed in current escrow state"
    );
    assert_eq!(
        ErrorCode::Unauthorized.message(),
        "Unauthorized: only the buyer can perform this action"
    );
    assert_eq!(
        ErrorCode::InvalidSeller.message(),
        "Invalid seller: seller address does not match escrow"
    );
    assert_eq!(
        ErrorCode::InvalidAddress.message(),
        "Invalid address: escrow address does not derive from its buyer"
    );
}
