//! The escrow record and the custody authority deriver.

use vstd::prelude::*;
use crate::ledger::EscrowError;
use crate::ledger::Owner;
use crate::ledger::TokenAccount;
use crate::ledger::close_spec;
use crate::ledger::close_account;
use crate::ledger::transfer_spec;
use crate::ledger::transfer_checked;

verus! {

/// The derivation salt. Derivation in this model is infallible and always
/// succeeds at the first salt value, so every record carries the same one;
/// a settlement reconstructs it and refuses a record whose stored salt does
/// not match the derivation.
pub const CUSTODY_SALT: u8 = 255;

/// One escrow agreement: who deposited, which two assets are exchanged, and
/// the exact amounts both sides owe. Immutable once created; destroyed by
/// whichever of cancel or exchange settles it.
#[derive(Clone, Copy, PartialEq, Eq, Structural, Debug)]
pub struct Escrow {
    /// Disambiguator chosen by the initializer; with `initializer` it names
    /// the record uniquely.
    pub seed: u64,
    /// The derivation salt stored at creation.
    pub bump: u8,
    /// The depositing party, who defined the terms.
    pub initializer: u64,
    /// The asset type locked in the vault.
    pub mint_a: u64,
    /// The asset type the taker must pay.
    pub mint_b: u64,
    /// Exact quantity of asset A locked.
    pub initializer_amount: u64,
    /// Exact quantity of asset B required from the taker.
    pub taker_amount: u64,
}

impl Escrow {
    /// A well-formed record has strictly positive amounts on both sides and
    /// carries the salt its custody derivation yields.
    pub open spec fn wf(self) -> bool {
        self.initializer_amount > 0 && self.taker_amount > 0 && self.bump == CUSTODY_SALT
    }

    /// The custody authority bound to this record's identity.
    pub open spec fn custody_authority(self) -> Owner {
        custody_authority_of(self.initializer, self.seed)
    }
}

/// The authority identity that the custody deriver yields for a record
/// named by `(initializer, seed)`.
pub open spec fn custody_authority_of(initializer: u64, seed: u64) -> Owner {
    Owner::Custody { initializer, seed }
}

/// The custody authority deriver: from a record's identity, deterministically
/// produce the non-key-holding authority that owns its vault, together with
/// the derivation salt. Infallible for every identity.
pub fn derive_custody_authority(initializer: u64, seed: u64) -> (r: (Owner, u8))
    ensures
        r.0 == custody_authority_of(initializer, seed),
        r.1 == CUSTODY_SALT,
{
    (Owner::Custody { initializer, seed }, CUSTODY_SALT)
}

/// Distinct record identities never share a custody authority.
pub proof fn lemma_custody_authority_injective(i1: u64, s1: u64, i2: u64, s2: u64)
    ensures
        custody_authority_of(i1, s1) == custody_authority_of(i2, s2) ==> i1 == i2 && s1 == s2,
{
}

/// No derived custody authority coincides with a key-holding identity: no
/// private key can sign for a vault the escrow machine custodies.
pub proof fn lemma_custody_authority_keyless(initializer: u64, seed: u64, key: u64)
    ensures
        custody_authority_of(initializer, seed) != Owner::User(key),
{
}

/// What releasing a vault does, exactly. The custody authority is
/// reconstructed from the record; the record's stored salt must match the
/// derivation. The vault's entire balance — which must be exactly the
/// recorded `initializer_amount`, or the subsequent close would strand a
/// residue — moves to `dest`, and the emptied vault is closed. On any
/// failure `dest` is unchanged and the vault is not closed.
pub open spec fn release_spec(
    escrow: Escrow,
    vault: TokenAccount,
    dest: TokenAccount,
    mint: u64,
) -> (Result<(), EscrowError>, TokenAccount) {
    let authority = custody_authority_of(escrow.initializer, escrow.seed);
    if escrow.bump != CUSTODY_SALT {
        (Err(EscrowError::Unauthorized), dest)
    } else if vault.amount > escrow.initializer_amount {
        (Err(EscrowError::AccountNotEmpty), dest)
    } else {
        let (r, vault2, dest2) = transfer_spec(vault, dest, authority, escrow.initializer_amount, mint);
        match r {
            Err(e) => (Err(e), dest),
            Ok(()) => (Ok(()), dest2),
        }
    }
}

/// Release a vault under the custody authority of `escrow`: refund or pay
/// out its entire balance to `dest`, then close it. The transfer runs
/// before the close, so the close acts on an empty vault and can never
/// strand funds.
pub fn release_vault(
    escrow: &Escrow,
    vault: TokenAccount,
    dest: &mut TokenAccount,
    mint: u64,
) -> (r: Result<(), EscrowError>)
    ensures
        ({
            let (rs, dest2) = release_spec(*escrow, vault, *old(dest), mint);
            r == rs && *final(dest) == dest2
        }),
{
    let (authority, salt) = derive_custody_authority(escrow.initializer, escrow.seed);
    if escrow.bump != salt {
        return Err(EscrowError::Unauthorized);
    }
    if vault.amount > escrow.initializer_amount {
        return Err(EscrowError::AccountNotEmpty);
    }
    let mut vault = vault;
    match transfer_checked(&mut vault, dest, authority, escrow.initializer_amount, mint) {
        Err(e) => Err(e),
        Ok(()) => {
            // The transfer moved the vault's entire balance, so the close
            // acts on an empty vault owned by the presented authority and
            // cannot fail.
            assert(close_spec(vault, authority) == Ok::<(), EscrowError>(()));
            match close_account(vault, authority) {
                Err(e) => Err(e),
                Ok(()) => Ok(()),
            }
        },
    }
}

} // verus!
