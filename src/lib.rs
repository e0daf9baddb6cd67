//! A custody state machine for an escrow: a buyer locks funds at an address
//! derived from their key, and later releases them to the seller or takes them
//! back. Every operation checks the address, the signer, the state and the
//! held balance, and either applies all of its effects or none.

mod address;
mod create;
mod key;
mod laws;
mod settle;
mod state;
mod transfer;

pub use address::{
    address_matches, derive_address, derived_address, escrow_tag, is_canonical_bump,
    no_escrow_address, verify_address, ESCROW_SEED,
};
pub use create::{
    after_create, apply_create, create_error, create_escrow, created_vault, is_escrow_address,
    CreateEscrow,
};
pub use key::Pubkey;
pub use laws::{
    every_settlement_refused, lemma_at_most_one_settlement, lemma_creation_moves_amount,
    lemma_settlement_matches, run_settlements, settled, settlement_error, Settlement, lemma_foreign_signer_rejected,
    lemma_release_twice, lemma_single_settlement, lemma_terminal_is_final,
    lemma_wrong_seller_rejected, lemma_zero_amount_rejected,
};
pub use settle::{
    apply_cancel, apply_refund, apply_release, cancel_escrow, cancelled, credited, paid_out,
    refund_escrow, refunded, release_error, release_funds, released, settle_error,
    vault_address_ok, CancelEscrow, RefundEscrow, ReleaseFunds,
};
pub use state::{message_of, ErrorCode, EscrowAccount, EscrowState, EscrowVault, Wallet};
pub use transfer::transfer;
