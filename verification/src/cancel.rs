//! The initializer's side of unwinding an escrow: the accounts a Cancel
//! request brings, and the refund that empties and closes the vault.

use vstd::prelude::*;
use crate::escrow::Escrow;
use crate::escrow::release_spec;
use crate::escrow::release_vault;
use crate::ledger::EscrowError;
use crate::ledger::TokenAccount;

verus! {

/// The accounts a Cancel request brings: the record's initializer — which
/// both names the record (together with the seed) and receives the refund —
/// the asset type locked, and the initializer's asset-A account the refund
/// goes to.
#[derive(Clone, Copy, PartialEq, Eq, Structural, Debug)]
pub struct Cancel {
    /// The recorded initializer of the escrow being cancelled.
    pub initializer: u64,
    /// The asset type locked in the vault.
    pub mint_a: u64,
    /// The initializer's own asset-A account, the refund destination.
    pub initializer_ata_a: TokenAccount,
}

/// What the refund does, exactly: the vault is released under the custody
/// authority reconstructed from the record — its entire balance moves back
/// to the initializer's asset-A account, and the emptied vault is closed.
/// On any failure the refund destination is unchanged and the vault stays.
pub open spec fn refund_spec(
    ctx: Cancel,
    escrow: Escrow,
    vault: TokenAccount,
) -> (Result<(), EscrowError>, Cancel) {
    let (r, dest2) = release_spec(escrow, vault, ctx.initializer_ata_a, ctx.mint_a);
    match r {
        Err(e) => (Err(e), ctx),
        Ok(()) => (
            Ok(()),
            Cancel { initializer: ctx.initializer, mint_a: ctx.mint_a, initializer_ata_a: dest2 },
        ),
    }
}

impl Cancel {
    /// Refund the vault's entire balance to the initializer's asset-A
    /// account, authorized by the custody authority derived from the
    /// record, then close the now-empty vault. The refund transfer runs
    /// before the close, so closing never strands funds.
    pub fn refund_and_close_vault(&mut self, escrow: &Escrow, vault: TokenAccount) -> (r: Result<
        (),
        EscrowError,
    >)
        ensures
            ({
                let (rs, ctx2) = refund_spec(*old(self), *escrow, vault);
                r == rs && *final(self) == ctx2
            }),
    {
        let mint = self.mint_a;
        release_vault(escrow, vault, &mut self.initializer_ata_a, mint)
    }
}

} // verus!
