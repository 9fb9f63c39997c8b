//! The taker's side of settlement: the accounts an Exchange request brings,
//! and the two legs of the atomic swap.

use vstd::prelude::*;
use crate::escrow::Escrow;
use crate::escrow::release_spec;
use crate::escrow::release_vault;
use crate::ledger::EscrowError;
use crate::ledger::Owner;
use crate::ledger::TokenAccount;
use crate::ledger::transfer_spec;
use crate::ledger::transfer_checked;

verus! {

/// The accounts an Exchange request brings: the taker, the record's
/// initializer, the two asset types, the taker's accounts for both assets,
/// and the initializer's asset-B receiving account.
#[derive(Clone, Copy, PartialEq, Eq, Structural, Debug)]
pub struct Exchange {
    /// The settling party; it signs the request and authorizes its own
    /// asset-B payment.
    pub taker: u64,
    /// The recorded initializer of the escrow being settled; with the seed
    /// it names the record, and it receives the asset-B payment.
    pub initializer: u64,
    /// The asset type locked in the vault.
    pub mint_a: u64,
    /// The asset type the taker pays.
    pub mint_b: u64,
    /// The taker's asset-A account, which receives the vault's balance.
    pub taker_ata_a: TokenAccount,
    /// The taker's asset-B account, the source of the payment.
    pub taker_ata_b: TokenAccount,
    /// The initializer's asset-B account, which receives the payment.
    pub initializer_ata_b: TokenAccount,
}

/// What the taker leg does, exactly: a checked transfer of `taker_amount`
/// of asset B from the taker's account to the initializer's receiving
/// account, authorized by the taker's own identity.
pub open spec fn taker_payment_spec(ctx: Exchange, taker_amount: u64) -> (
    Result<(), EscrowError>,
    Exchange,
) {
    let (r, from2, to2) = transfer_spec(
        ctx.taker_ata_b,
        ctx.initializer_ata_b,
        Owner::User(ctx.taker),
        taker_amount,
        ctx.mint_b,
    );
    (
        r,
        Exchange {
            taker: ctx.taker,
            initializer: ctx.initializer,
            mint_a: ctx.mint_a,
            mint_b: ctx.mint_b,
            taker_ata_a: ctx.taker_ata_a,
            taker_ata_b: from2,
            initializer_ata_b: to2,
        },
    )
}

/// What the custody leg does, exactly: the vault is released under the
/// custody authority reconstructed from the record — its entire balance of
/// asset A moves to the taker's receiving account, and the emptied vault is
/// closed.
pub open spec fn withdraw_spec(ctx: Exchange, escrow: Escrow, vault: TokenAccount) -> (
    Result<(), EscrowError>,
    Exchange,
) {
    let (r, dest2) = release_spec(escrow, vault, ctx.taker_ata_a, ctx.mint_a);
    match r {
        Err(e) => (Err(e), ctx),
        Ok(()) => (
            Ok(()),
            Exchange {
                taker: ctx.taker,
                initializer: ctx.initializer,
                mint_a: ctx.mint_a,
                mint_b: ctx.mint_b,
                taker_ata_a: dest2,
                taker_ata_b: ctx.taker_ata_b,
                initializer_ata_b: ctx.initializer_ata_b,
            },
        ),
    }
}

impl Exchange {
    /// The taker leg of settlement: move exactly `taker_amount` of asset B
    /// from the taker's account to the initializer's receiving account,
    /// authorized by the taker directly. On failure, both accounts are
    /// unchanged.
    pub fn deposit(&mut self, taker_amount: u64) -> (r: Result<(), EscrowError>)
        ensures
            ({
                let (rs, ctx2) = taker_payment_spec(*old(self), taker_amount);
                r == rs && *final(self) == ctx2
            }),
    {
        let authority = Owner::User(self.taker);
        let mint = self.mint_b;
        transfer_checked(
            &mut self.taker_ata_b,
            &mut self.initializer_ata_b,
            authority,
            taker_amount,
            mint,
        )
    }

    /// The custody leg of settlement: pay the vault's entire balance of
    /// asset A out to the taker's receiving account, authorized by the
    /// custody authority derived from the record, then close the now-empty
    /// vault. The payout transfer runs before the close, so closing never
    /// strands funds.
    pub fn withdraw_and_close_vault(&mut self, escrow: &Escrow, vault: TokenAccount) -> (r: Result<
        (),
        EscrowError,
    >)
        ensures
            ({
                let (rs, ctx2) = withdraw_spec(*old(self), *escrow, vault);
                r == rs && *final(self) == ctx2
            }),
    {
        let mint = self.mint_a;
        release_vault(escrow, vault, &mut self.taker_ata_a, mint)
    }
}

} // verus!
