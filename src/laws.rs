use vstd::prelude::*;

use crate::create::{after_create, create_error, created_vault, CreateEscrow};
use crate::key::Pubkey;
use crate::settle::{
    cancelled, paid_out, refunded, release_error, released, settle_error, vault_address_ok, CancelEscrow,
    RefundEscrow, ReleaseFunds,
};
use crate::state::{ErrorCode, EscrowState, EscrowVault, Wallet};

verus! {

/// A successful creation leaves the escrow holding exactly `amount`, and the
/// buyer holding exactly `amount` less than before.
pub proof fn lemma_creation_moves_amount(ctx: CreateEscrow, seller: Pubkey, amount: u64, found: Option<(Pubkey, u8)>, bump: u8)
    requires
        create_error(ctx, amount, found) is None,
    ensures
        created_vault(ctx, seller, amount, bump).lamports == amount,
        created_vault(ctx, seller, amount, bump).data.amount == amount,
        created_vault(ctx, seller, amount, bump).data.state == EscrowState::Active,
        after_create(ctx, amount).buyer.lamports == ctx.buyer.lamports - amount,
{
}

/// Creation with an amount of zero fails with `InvalidAmount`.
pub proof fn lemma_zero_amount_rejected(ctx: CreateEscrow, found: Option<(Pubkey, u8)>)
    ensures
        create_error(ctx, 0, found) == Some(ErrorCode::InvalidAmount),
{
}

/// No release, refund or cancellation succeeds on an escrow that is not
/// `Active`, whoever signs and whatever account is to be paid.
pub proof fn lemma_terminal_is_final(ctx: ReleaseFunds, signer: Pubkey, address_ok: bool)
    requires
        ctx.escrow.data.state != EscrowState::Active,
    ensures
        release_error(ctx, address_ok) is Some,
        settle_error(ctx.escrow, signer, address_ok) is Some,
{
}

/// Whether release, refund and cancellation of `escrow`, asked by `buyer` for
/// `seller`, all fail with `InvalidState`.
pub open spec fn every_settlement_refused(program_id: Pubkey, escrow: EscrowVault, buyer: Pubkey, seller: Wallet) -> bool {
    let ok = vault_address_ok(program_id, escrow);
    &&& release_error(ReleaseFunds { program_id, escrow, buyer, seller }, ok) == Some(ErrorCode::InvalidState)
    &&& settle_error(escrow, buyer, ok) == Some(ErrorCode::InvalidState)
}

/// On an active, funded escrow at its own address, asked by its buyer for its
/// seller, each of release, refund and cancellation can succeed; and once any
/// one of them has, the escrow is no longer active and all three, asked again,
/// fail with `InvalidState`.
pub proof fn lemma_single_settlement(program_id: Pubkey, escrow: EscrowVault, buyer: Wallet, seller: Wallet)
    requires
        escrow.data.state == EscrowState::Active,
        vault_address_ok(program_id, escrow),
        buyer.key@ == escrow.data.buyer@,
        seller.key@ == escrow.data.seller@,
        escrow.lamports >= escrow.data.amount,
    ensures
        ({
            let rel = ReleaseFunds { program_id, escrow, buyer: buyer.key, seller };
            let refund = RefundEscrow { program_id, escrow, buyer };
            let cancel = CancelEscrow { program_id, escrow, buyer };
            &&& release_error(rel, vault_address_ok(program_id, escrow)) is None
            &&& settle_error(escrow, buyer.key, vault_address_ok(program_id, escrow)) is None
            &&& every_settlement_refused(program_id, released(rel).escrow, buyer.key, seller)
            &&& every_settlement_refused(program_id, refunded(refund).escrow, buyer.key, seller)
            &&& every_settlement_refused(program_id, cancelled(cancel).escrow, buyer.key, seller)
        }),
{
}

/// A release that names an account other than the escrow's seller fails with
/// `InvalidSeller`, where the address checks out and the buyer signs.
pub proof fn lemma_wrong_seller_rejected(ctx: ReleaseFunds, address_ok: bool)
    requires
        address_ok,
        ctx.buyer@ == ctx.escrow.data.buyer@,
        ctx.seller.key@ != ctx.escrow.data.seller@,
    ensures
        release_error(ctx, address_ok) == Some(ErrorCode::InvalidSeller),
{
}

/// A release, refund or cancellation signed by anyone but the escrow's buyer
/// fails with `Unauthorized`, where the address checks out.
pub proof fn lemma_foreign_signer_rejected(ctx: ReleaseFunds, signer: Pubkey, address_ok: bool)
    requires
        address_ok,
        signer@ != ctx.escrow.data.buyer@,
    ensures
        release_error(ReleaseFunds { buyer: signer, ..ctx }, address_ok) == Some(ErrorCode::Unauthorized),
        settle_error(ctx.escrow, signer, address_ok) == Some(ErrorCode::Unauthorized),
{
}

/// Releasing twice: where a release succeeds, the same release asked again
/// fails with `InvalidState`, at an address that checks out as before, and can
/// be asked without overflow.
pub proof fn lemma_release_twice(ctx: ReleaseFunds)
    requires
        ctx.wf(),
        release_error(ctx, vault_address_ok(ctx.program_id, ctx.escrow)) is None,
    ensures
        released(ctx).wf(),
        vault_address_ok(released(ctx).program_id, released(ctx).escrow) == vault_address_ok(ctx.program_id, ctx.escrow),
        release_error(released(ctx), vault_address_ok(released(ctx).program_id, released(ctx).escrow))
            == Some(ErrorCode::InvalidState),
{
}

/// One settlement asked of an escrow: a release by `signer` to `seller`, or a
/// refund or cancellation by `signer`.
pub enum Settlement {
    Release { signer: Pubkey, seller: Pubkey },
    Refund { signer: Pubkey },
    Cancel { signer: Pubkey },
}

/// The error that settlement `s` meets on `escrow`, as `release_funds`,
/// `refund_escrow` or `cancel_escrow` decide it; `None` where it succeeds.
pub open spec fn settlement_error(program_id: Pubkey, escrow: EscrowVault, s: Settlement) -> Option<ErrorCode> {
    let ok = vault_address_ok(program_id, escrow);
    match s {
        Settlement::Release { signer, seller } => release_error(
            ReleaseFunds { program_id, escrow, buyer: signer, seller: Wallet { key: seller, lamports: 0 } },
            ok,
        ),
        Settlement::Refund { signer } => settle_error(escrow, signer, ok),
        Settlement::Cancel { signer } => settle_error(escrow, signer, ok),
    }
}

/// The escrow after settlement `s` has succeeded on it.
pub open spec fn settled(escrow: EscrowVault, s: Settlement) -> EscrowVault {
    match s {
        Settlement::Release { .. } => paid_out(escrow, EscrowState::Completed),
        Settlement::Refund { .. } => paid_out(escrow, EscrowState::Refunded),
        Settlement::Cancel { .. } => paid_out(escrow, EscrowState::Cancelled),
    }
}

/// The escrow after the settlements `ops` have been asked in turn, each one
/// that fails changing nothing, with the number that succeeded.
pub open spec fn run_settlements(program_id: Pubkey, escrow: EscrowVault, ops: Seq<Settlement>) -> (EscrowVault, nat)
    decreases ops.len(),
{
    if ops.len() == 0 {
        (escrow, 0)
    } else {
        let (e, n) = run_settlements(program_id, escrow, ops.drop_last());
        match settlement_error(program_id, e, ops.last()) {
            Some(_) => (e, n),
            None => (settled(e, ops.last()), n + 1),
        }
    }
}

/// The settlement functions agree with `settlement_error` and `settled`.
pub proof fn lemma_settlement_matches(ctx: ReleaseFunds, refund: RefundEscrow, cancel: CancelEscrow)
    ensures
        release_error(ctx, vault_address_ok(ctx.program_id, ctx.escrow)) == settlement_error(
            ctx.program_id,
            ctx.escrow,
            Settlement::Release { signer: ctx.buyer, seller: ctx.seller.key },
        ),
        released(ctx).escrow == settled(ctx.escrow, Settlement::Release { signer: ctx.buyer, seller: ctx.seller.key }),
        settle_error(refund.escrow, refund.buyer.key, vault_address_ok(refund.program_id, refund.escrow))
            == settlement_error(refund.program_id, refund.escrow, Settlement::Refund { signer: refund.buyer.key }),
        refunded(refund).escrow == settled(refund.escrow, Settlement::Refund { signer: refund.buyer.key }),
        settle_error(cancel.escrow, cancel.buyer.key, vault_address_ok(cancel.program_id, cancel.escrow))
            == settlement_error(cancel.program_id, cancel.escrow, Settlement::Cancel { signer: cancel.buyer.key }),
        cancelled(cancel).escrow == settled(cancel.escrow, Settlement::Cancel { signer: cancel.buyer.key }),
{
}

/// In any sequence of releases, refunds and cancellations asked of one escrow,
/// at most one succeeds. Where none does the escrow is as it was; where one
/// does, exactly its amount has left it and it is no longer `Active`, so every
/// later one fails.
pub proof fn lemma_at_most_one_settlement(program_id: Pubkey, escrow: EscrowVault, ops: Seq<Settlement>)
    ensures
        ({
            let (e, n) = run_settlements(program_id, escrow, ops);
            &&& n <= 1
            &&& n == 0 ==> e == escrow
            &&& n == 1 ==> {
                &&& escrow.data.state == EscrowState::Active
                &&& e.data.state != EscrowState::Active
                &&& e == paid_out(escrow, e.data.state)
                &&& e.lamports == escrow.lamports - escrow.data.amount
            }
        }),
    decreases ops.len(),
{
    if ops.len() > 0 {
        lemma_at_most_one_settlement(program_id, escrow, ops.drop_last());
    }
}

} // verus!
