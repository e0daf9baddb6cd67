use vstd::prelude::*;

use crate::address::{address_matches, verify_address};
use crate::key::Pubkey;
use crate::state::{ErrorCode, EscrowAccount, EscrowState, EscrowVault, Wallet};
use crate::transfer::transfer;

verus! {

/// What releasing an escrow is handed: the program's key, the escrow, the key of
/// the signer, who must be its buyer, and the account to be paid, which must be
/// its seller.
#[derive(Clone, Copy, Debug, PartialEq, Eq)]
pub struct ReleaseFunds {
    pub program_id: Pubkey,
    pub escrow: EscrowVault,
    pub buyer: Pubkey,
    pub seller: Wallet,
}

/// What refunding an escrow is handed: the program's key, the escrow, and the
/// signer, who must be its buyer and is paid back.
#[derive(Clone, Copy, Debug, PartialEq, Eq)]
pub struct RefundEscrow {
    pub program_id: Pubkey,
    pub escrow: EscrowVault,
    pub buyer: Wallet,
}

/// What cancelling an escrow is handed; as for a refund.
#[derive(Clone, Copy, Debug, PartialEq, Eq)]
pub struct CancelEscrow {
    pub program_id: Pubkey,
    pub escrow: EscrowVault,
    pub buyer: Wallet,
}

/// Whether the escrow stands at the address derived from its stored buyer and
/// bump.
pub open spec fn vault_address_ok(program_id: Pubkey, escrow: EscrowVault) -> bool {
    address_matches(escrow.key, program_id, escrow.data.buyer, escrow.data.bump)
}

/// The error that a refund or a cancellation signed by `signer` meets, given
/// whether the escrow's address checks out; `None` where it succeeds.
pub open spec fn settle_error(escrow: EscrowVault, signer: Pubkey, address_ok: bool) -> Option<ErrorCode> {
    if !address_ok {
        Some(ErrorCode::InvalidAddress)
    } else if signer@ != escrow.data.buyer@ {
        Some(ErrorCode::Unauthorized)
    } else if escrow.data.state != EscrowState::Active {
        Some(ErrorCode::InvalidState)
    } else if escrow.lamports < escrow.data.amount {
        Some(ErrorCode::InsufficientFunds)
    } else {
        None
    }
}

/// The error that a release meets, given whether the escrow's address checks
/// out; `None` where it succeeds.
pub open spec fn release_error(ctx: ReleaseFunds, address_ok: bool) -> Option<ErrorCode> {
    if !address_ok {
        Some(ErrorCode::InvalidAddress)
    } else if ctx.buyer@ != ctx.escrow.data.buyer@ {
        Some(ErrorCode::Unauthorized)
    } else if ctx.seller.key@ != ctx.escrow.data.seller@ {
        Some(ErrorCode::InvalidSeller)
    } else if ctx.escrow.data.state != EscrowState::Active {
        Some(ErrorCode::InvalidState)
    } else if ctx.escrow.lamports < ctx.escrow.data.amount {
        Some(ErrorCode::InsufficientFunds)
    } else {
        None
    }
}

/// The escrow once its amount has left it and it has reached `state`.
pub open spec fn paid_out(escrow: EscrowVault, state: EscrowState) -> EscrowVault {
    EscrowVault {
        lamports: (escrow.lamports - escrow.data.amount) as u64,
        data: EscrowAccount { state, ..escrow.data },
        ..escrow
    }
}

/// The account once `amount` has reached it.
pub open spec fn credited(w: Wallet, amount: u64) -> Wallet {
    Wallet { lamports: (w.lamports + amount) as u64, ..w }
}

/// The context after a successful release: the seller holds the amount.
pub open spec fn released(ctx: ReleaseFunds) -> ReleaseFunds {
    ReleaseFunds {
        escrow: paid_out(ctx.escrow, EscrowState::Completed),
        seller: credited(ctx.seller, ctx.escrow.data.amount),
        ..ctx
    }
}

/// The context after a successful refund: the buyer holds the amount again.
pub open spec fn refunded(ctx: RefundEscrow) -> RefundEscrow {
    RefundEscrow {
        escrow: paid_out(ctx.escrow, EscrowState::Refunded),
        buyer: credited(ctx.buyer, ctx.escrow.data.amount),
        ..ctx
    }
}

/// The context after a successful cancellation: the buyer holds the amount
/// again.
pub open spec fn cancelled(ctx: CancelEscrow) -> CancelEscrow {
    CancelEscrow {
        escrow: paid_out(ctx.escrow, EscrowState::Cancelled),
        buyer: credited(ctx.buyer, ctx.escrow.data.amount),
        ..ctx
    }
}

impl ReleaseFunds {
    /// The balances of the escrow and the seller fit in a u64 together, as every
    /// ledger's total supply does.
    pub open spec fn wf(&self) -> bool {
        self.escrow.lamports + self.seller.lamports <= u64::MAX
    }
}

impl RefundEscrow {
    /// The balances of the escrow and the buyer fit in a u64 together.
    pub open spec fn wf(&self) -> bool {
        self.escrow.lamports + self.buyer.lamports <= u64::MAX
    }
}

impl CancelEscrow {
    /// The balances of the escrow and the buyer fit in a u64 together.
    pub open spec fn wf(&self) -> bool {
        self.escrow.lamports + self.buyer.lamports <= u64::MAX
    }
}

/// Releases the escrow to the seller, given whether its address checks out.
pub fn apply_release(ctx: &mut ReleaseFunds, address_ok: bool) -> (r: Result<(), ErrorCode>)
    requires
        old(ctx).wf(),
    ensures
        match release_error(*old(ctx), address_ok) {
            Some(e) => r == Err::<(), ErrorCode>(e) && *final(ctx) == *old(ctx),
            None => r is Ok && *final(ctx) == released(*old(ctx)),
        },
{
    if !address_ok {
        return Err(ErrorCode::InvalidAddress);
    }
    if !ctx.buyer.same_as(&ctx.escrow.data.buyer) {
        return Err(ErrorCode::Unauthorized);
    }
    if !ctx.seller.key.same_as(&ctx.escrow.data.seller) {
        return Err(ErrorCode::InvalidSeller);
    }
    if ctx.escrow.data.state != EscrowState::Active {
        return Err(ErrorCode::InvalidState);
    }
    let amount = ctx.escrow.data.amount;
    match transfer(&mut ctx.escrow.lamports, &mut ctx.seller.lamports, amount) {
        Ok(()) => {},
        Err(e) => {
            return Err(e);
        },
    }
    ctx.escrow.data.state = EscrowState::Completed;
    Ok(())
}

/// Pays the escrow back to its buyer and moves it to `state`, given whether its
/// address checks out.
fn settle_to_buyer(escrow: &mut EscrowVault, buyer: &mut Wallet, address_ok: bool, state: EscrowState) -> (r: Result<(), ErrorCode>)
    requires
        old(escrow).lamports + old(buyer).lamports <= u64::MAX,
    ensures
        match settle_error(*old(escrow), old(buyer).key, address_ok) {
            Some(e) => r == Err::<(), ErrorCode>(e) && *final(escrow) == *old(escrow)
                && *final(buyer) == *old(buyer),
            None => r is Ok && *final(escrow) == paid_out(*old(escrow), state)
                && *final(buyer) == credited(*old(buyer), old(escrow).data.amount),
        },
{
    if !address_ok {
        return Err(ErrorCode::InvalidAddress);
    }
    if !buyer.key.same_as(&escrow.data.buyer) {
        return Err(ErrorCode::Unauthorized);
    }
    if escrow.data.state != EscrowState::Active {
        return Err(ErrorCode::InvalidState);
    }
    let amount = escrow.data.amount;
    match transfer(&mut escrow.lamports, &mut buyer.lamports, amount) {
        Ok(()) => {},
        Err(e) => {
            return Err(e);
        },
    }
    escrow.data.state = state;
    Ok(())
}

/// Refunds the escrow to its buyer, given whether its address checks out.
pub fn apply_refund(ctx: &mut RefundEscrow, address_ok: bool) -> (r: Result<(), ErrorCode>)
    requires
        old(ctx).wf(),
    ensures
        match settle_error(old(ctx).escrow, old(ctx).buyer.key, address_ok) {
            Some(e) => r == Err::<(), ErrorCode>(e) && *final(ctx) == *old(ctx),
            None => r is Ok && *final(ctx) == refunded(*old(ctx)),
        },
{
    settle_to_buyer(&mut ctx.escrow, &mut ctx.buyer, address_ok, EscrowState::Refunded)
}

/// Cancels the escrow, paying it back to its buyer, given whether its address
/// checks out.
pub fn apply_cancel(ctx: &mut CancelEscrow, address_ok: bool) -> (r: Result<(), ErrorCode>)
    requires
        old(ctx).wf(),
    ensures
        match settle_error(old(ctx).escrow, old(ctx).buyer.key, address_ok) {
            Some(e) => r == Err::<(), ErrorCode>(e) && *final(ctx) == *old(ctx),
            None => r is Ok && *final(ctx) == cancelled(*old(ctx)),
        },
{
    settle_to_buyer(&mut ctx.escrow, &mut ctx.buyer, address_ok, EscrowState::Cancelled)
}

/// Releases the escrow's amount to its seller and marks it `Completed`.
/// Fails, changing nothing, with the first of: `InvalidAddress` where the
/// escrow's address does not derive from its stored buyer and bump,
/// `Unauthorized` where the signer is not its buyer, `InvalidSeller` where the
/// account to be paid is not its seller, `InvalidState` where it is not
/// `Active`, `InsufficientFunds` where it holds less than its amount.
pub fn release_funds(ctx: &mut ReleaseFunds) -> (r: Result<(), ErrorCode>)
    requires
        old(ctx).wf(),
    ensures
        match release_error(*old(ctx), vault_address_ok(old(ctx).program_id, old(ctx).escrow)) {
            Some(e) => r == Err::<(), ErrorCode>(e) && *final(ctx) == *old(ctx),
            None => r is Ok && *final(ctx) == released(*old(ctx)),
        },
{
    let address_ok = verify_address(&ctx.escrow.key, &ctx.program_id, &ctx.escrow.data.buyer, ctx.escrow.data.bump);
    apply_release(ctx, address_ok)
}

/// Pays the escrow's amount back to its buyer and marks it `Refunded`. Fails,
/// changing nothing, with the first of `InvalidAddress`, `Unauthorized`,
/// `InvalidState`, `InsufficientFunds`, as release does.
pub fn refund_escrow(ctx: &mut RefundEscrow) -> (r: Result<(), ErrorCode>)
    requires
        old(ctx).wf(),
    ensures
        match settle_error(old(ctx).escrow, old(ctx).buyer.key, vault_address_ok(old(ctx).program_id, old(ctx).escrow)) {
            Some(e) => r == Err::<(), ErrorCode>(e) && *final(ctx) == *old(ctx),
            None => r is Ok && *final(ctx) == refunded(*old(ctx)),
        },
{
    let address_ok = verify_address(&ctx.escrow.key, &ctx.program_id, &ctx.escrow.data.buyer, ctx.escrow.data.bump);
    apply_refund(ctx, address_ok)
}

/// Pays the escrow's amount back to its buyer and marks it `Cancelled`. Fails
/// as a refund does.
pub fn cancel_escrow(ctx: &mut CancelEscrow) -> (r: Result<(), ErrorCode>)
    requires
        old(ctx).wf(),
    ensures
        match settle_error(old(ctx).escrow, old(ctx).buyer.key, vault_address_ok(old(ctx).program_id, old(ctx).escrow)) {
            Some(e) => r == Err::<(), ErrorCode>(e) && *final(ctx) == *old(ctx),
            None => r is Ok && *final(ctx) == cancelled(*old(ctx)),
        },
{
    let address_ok = verify_address(&ctx.escrow.key, &ctx.program_id, &ctx.escrow.data.buyer, ctx.escrow.data.bump);
    apply_cancel(ctx, address_ok)
}

} // verus!
