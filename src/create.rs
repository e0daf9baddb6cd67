use vstd::prelude::*;

use crate::address::{
    address_matches, derive_address, derived_address, escrow_tag, is_canonical_bump,
};
use crate::key::Pubkey;
use crate::state::{ErrorCode, EscrowAccount, EscrowState, EscrowVault, Wallet};
use crate::transfer::transfer;

verus! {

/// What creating an escrow is handed: the program's key, the address at which
/// the escrow is to stand, and the buyer, who signs and pays.
#[derive(Clone, Copy, Debug, PartialEq, Eq)]
pub struct CreateEscrow {
    pub program_id: Pubkey,
    pub escrow: Pubkey,
    pub buyer: Wallet,
}

/// Whether `address` is the escrow address of `buyer`, derived with the
/// canonical bump `bump`.
pub open spec fn is_escrow_address(program_id: Pubkey, buyer: Pubkey, address: Pubkey, bump: u8) -> bool {
    is_canonical_bump(program_id, buyer, bump) && address_matches(address, program_id, buyer, bump)
}

/// The error that creation meets, given the address and bump that derivation
/// found for the buyer, if any; `None` where it succeeds.
pub open spec fn create_error(ctx: CreateEscrow, amount: u64, found: Option<(Pubkey, u8)>) -> Option<ErrorCode> {
    if amount == 0 {
        Some(ErrorCode::InvalidAmount)
    } else if !(found matches Some((k, _)) && k@ == ctx.escrow@) {
        Some(ErrorCode::InvalidAddress)
    } else if ctx.buyer.lamports < amount {
        Some(ErrorCode::InsufficientFunds)
    } else {
        None
    }
}

/// The escrow that a successful creation leaves: active, holding `amount`.
pub open spec fn created_vault(ctx: CreateEscrow, seller: Pubkey, amount: u64, bump: u8) -> EscrowVault {
    EscrowVault {
        key: ctx.escrow,
        lamports: amount,
        data: EscrowAccount {
            buyer: ctx.buyer.key,
            seller,
            amount,
            state: EscrowState::Active,
            bump,
        },
    }
}

/// The context after a successful creation: the buyer has paid `amount`.
pub open spec fn after_create(ctx: CreateEscrow, amount: u64) -> CreateEscrow {
    CreateEscrow { buyer: Wallet { lamports: (ctx.buyer.lamports - amount) as u64, ..ctx.buyer }, ..ctx }
}

/// Creates an escrow given what derivation found for the buyer's address
/// (`found`): checks the amount, then the address, then moves `amount` from the
/// buyer into the new escrow.
pub fn apply_create(ctx: &mut CreateEscrow, seller: Pubkey, amount: u64, found: Option<(Pubkey, u8)>) -> (r: Result<EscrowVault, ErrorCode>)
    ensures
        match create_error(*old(ctx), amount, found) {
            Some(e) => r == Err::<EscrowVault, ErrorCode>(e) && *final(ctx) == *old(ctx),
            None => found matches Some((_, b)) && r == Ok::<EscrowVault, ErrorCode>(
                created_vault(*old(ctx), seller, amount, b),
            ) && *final(ctx) == after_create(*old(ctx), amount),
        },
{
    if amount == 0 {
        return Err(ErrorCode::InvalidAmount);
    }
    let bump = match found {
        Some((k, b)) => {
            if !k.same_as(&ctx.escrow) {
                return Err(ErrorCode::InvalidAddress);
            }
            b
        },
        None => {
            return Err(ErrorCode::InvalidAddress);
        },
    };
    let mut held: u64 = 0;
    match transfer(&mut ctx.buyer.lamports, &mut held, amount) {
        Ok(()) => {},
        Err(e) => {
            return Err(e);
        },
    }
    let data = EscrowAccount {
        buyer: ctx.buyer.key,
        seller,
        amount,
        state: EscrowState::Active,
        bump,
    };
    Ok(EscrowVault { key: ctx.escrow, lamports: held, data })
}

/// Creates an escrow of `amount` for `seller`, funded and signed by the buyer.
/// Fails with `InvalidAmount` where `amount` is 0, with `InvalidAddress` where
/// the escrow address is not the one derived from the buyer's key with the
/// canonical bump, and with `InsufficientFunds` where the buyer holds less than
/// `amount`, in that order; a failure changes nothing.
pub fn create_escrow(ctx: &mut CreateEscrow, seller: Pubkey, amount: u64) -> (r: Result<EscrowVault, ErrorCode>)
    ensures
        r == Err::<EscrowVault, ErrorCode>(ErrorCode::InvalidAmount) <==> amount == 0,
        r == Err::<EscrowVault, ErrorCode>(ErrorCode::InvalidAddress) <==> amount > 0
            && !exists|b: u8| is_escrow_address(old(ctx).program_id, old(ctx).buyer.key, old(ctx).escrow, b),
        r == Err::<EscrowVault, ErrorCode>(ErrorCode::InsufficientFunds) <==> amount > 0
            && (exists|b: u8| is_escrow_address(old(ctx).program_id, old(ctx).buyer.key, old(ctx).escrow, b))
            && old(ctx).buyer.lamports < amount,
        r is Ok <==> amount > 0
            && (exists|b: u8| is_escrow_address(old(ctx).program_id, old(ctx).buyer.key, old(ctx).escrow, b))
            && old(ctx).buyer.lamports >= amount,
        r is Err ==> *final(ctx) == *old(ctx),
        r matches Ok(v) ==> {
            &&& is_escrow_address(old(ctx).program_id, old(ctx).buyer.key, old(ctx).escrow, v.data.bump)
            &&& v == created_vault(*old(ctx), seller, amount, v.data.bump)
            &&& *final(ctx) == after_create(*old(ctx), amount)
        },
{
    let found = derive_address(&ctx.program_id, &ctx.buyer.key);
    proof {
        if let Some((k, b)) = found {
            assert(is_escrow_address(ctx.program_id, ctx.buyer.key, k, b));
            assert forall|c: u8| is_escrow_address(ctx.program_id, ctx.buyer.key, ctx.escrow, c)
                implies c == b && k@ == ctx.escrow@ by {
                if c < b {
                    assert(!is_canonical_bump(ctx.program_id, ctx.buyer.key, c));
                } else if b < c {
                    assert(!is_canonical_bump(ctx.program_id, ctx.buyer.key, b));
                }
            }
            if k@ == ctx.escrow@ {
                assert(is_escrow_address(ctx.program_id, ctx.buyer.key, ctx.escrow, b));
            }
        } else {
            assert forall|c: u8| !is_escrow_address(ctx.program_id, ctx.buyer.key, ctx.escrow, c) by {
                if 1 <= c {
                    assert(derived_address(escrow_tag(), ctx.buyer.key@, c, ctx.program_id@) is None);
                }
            }
        }
    }
    apply_create(ctx, seller, amount, found)
}

} // verus!
