//! The initializer's side of escrow creation: the accounts an Initialize
//! request brings, building the record, and funding the vault.

use vstd::prelude::*;
use crate::escrow::Escrow;
use crate::ledger::EscrowError;
use crate::ledger::Owner;
use crate::ledger::TokenAccount;
use crate::ledger::transfer_spec;
use crate::ledger::transfer_checked;

verus! {

/// The accounts an Initialize request brings: the depositing party, the two
/// asset types of the agreement, and the depositor's asset-A account that
/// funds the vault.
#[derive(Clone, Copy, PartialEq, Eq, Structural, Debug)]
pub struct Initialize {
    /// The depositing party; it signs the request and authorizes the deposit.
    pub initializer: u64,
    /// The asset type to be locked.
    pub mint_a: u64,
    /// The asset type expected in return.
    pub mint_b: u64,
    /// The initializer's own asset-A account, the source of the deposit.
    pub initializer_ata_a: TokenAccount,
}

/// What funding the vault does, exactly: a checked transfer of the deposit
/// from the initializer's asset-A account into the vault, authorized by the
/// initializer's own identity.
pub open spec fn deposit_spec(
    ctx: Initialize,
    vault: TokenAccount,
    initializer_amount: u64,
) -> (Result<(), EscrowError>, Initialize, TokenAccount) {
    let (r, from2, vault2) = transfer_spec(
        ctx.initializer_ata_a,
        vault,
        Owner::User(ctx.initializer),
        initializer_amount,
        ctx.mint_a,
    );
    (
        r,
        Initialize {
            initializer: ctx.initializer,
            mint_a: ctx.mint_a,
            mint_b: ctx.mint_b,
            initializer_ata_a: from2,
        },
        vault2,
    )
}

impl Initialize {
    /// Build the escrow record for this request: the initializer and the two
    /// asset types are taken from the accounts, the terms from the arguments.
    pub fn initialize_escrow(
        &self,
        seed: u64,
        bump: u8,
        initializer_amount: u64,
        taker_amount: u64,
    ) -> (e: Escrow)
        ensures
            e == (Escrow {
                seed,
                bump,
                initializer: self.initializer,
                mint_a: self.mint_a,
                mint_b: self.mint_b,
                initializer_amount,
                taker_amount,
            }),
    {
        Escrow {
            seed,
            bump,
            initializer: self.initializer,
            mint_a: self.mint_a,
            mint_b: self.mint_b,
            initializer_amount,
            taker_amount,
        }
    }

    /// Fund the vault: move exactly `initializer_amount` of asset A from the
    /// initializer's account into `vault`, authorized by the initializer
    /// directly. On failure, both accounts are unchanged.
    pub fn deposit(&mut self, vault: &mut TokenAccount, initializer_amount: u64) -> (r: Result<
        (),
        EscrowError,
    >)
        ensures
            ({
                let (rs, ctx2, vault2) = deposit_spec(*old(self), *old(vault), initializer_amount);
                r == rs && *final(self) == ctx2 && *final(vault) == vault2
            }),
    {
        let authority = Owner::User(self.initializer);
        let mint = self.mint_a;
        transfer_checked(&mut self.initializer_ata_a, vault, authority, initializer_amount, mint)
    }
}

} // verus!
