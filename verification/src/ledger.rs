//! The asset ledger at its interface: token accounts, the checked value
//! transfer, and account closing. The escrow state machine moves funds only
//! through these operations, so every money-safety property of the machine
//! rests on the exact contracts given here.

use vstd::prelude::*;

verus! {

/// The authority that may move funds out of a token account.
///
/// A `User` authority stands for an ordinary key-holding identity. A
/// `Custody` authority is derived from an escrow record's identity (its
/// initializer and seed) and is held by no key at all: only the escrow state
/// machine, reconstructing the derivation from the record it acts on, can
/// present it. Distinct variants never compare equal, which is the model of
/// "no private key can sign for a derived authority".
#[derive(Clone, Copy, PartialEq, Eq, Structural, Debug)]
pub enum Owner {
    User(u64),
    Custody { initializer: u64, seed: u64 },
}

/// A fungible-asset holding account: the asset type it holds (`mint`), the
/// authority that may move its funds, and its current balance.
#[derive(Clone, Copy, PartialEq, Eq, Structural, Debug)]
pub struct TokenAccount {
    pub mint: u64,
    pub owner: Owner,
    pub amount: u64,
}

/// Everything that can make an escrow operation abort. Every failure is
/// all-or-nothing: the operation that returns one of these leaves every
/// account and every record exactly as it found them.
#[derive(Clone, Copy, PartialEq, Eq, Structural, Debug)]
pub enum EscrowError {
    /// An escrow was offered with a zero amount on either side.
    InvalidAmount,
    /// An active record already exists for this (initializer, seed) pair.
    DuplicateRecord,
    /// No active record exists for the named (initializer, seed) pair.
    NotActive,
    /// The caller is not the recorded initializer, or an authority did not
    /// match the account it claims to move funds from.
    Unauthorized,
    /// An account holds a different asset type than the operation requires.
    MintMismatch,
    /// An account is owned by a different identity than the operation
    /// requires.
    OwnerMismatch,
    /// The paying account holds less than the required amount.
    InsufficientBalance,
    /// Crediting the receiving account would overflow its balance.
    BalanceOverflow,
    /// An account with a residual balance cannot be closed.
    AccountNotEmpty,
}

/// What a checked transfer does, exactly. The first failing check decides
/// the error, in this order: asset type of both accounts, authority over the
/// paying account, balance of the paying account, balance headroom of the
/// receiving account. On success the amount moves in full; every other field
/// is untouched; on failure both accounts are returned unchanged.
pub open spec fn transfer_spec(
    from: TokenAccount,
    to: TokenAccount,
    authority: Owner,
    amount: u64,
    mint: u64,
) -> (Result<(), EscrowError>, TokenAccount, TokenAccount) {
    if from.mint != mint || to.mint != mint {
        (Err(EscrowError::MintMismatch), from, to)
    } else if authority != from.owner {
        (Err(EscrowError::Unauthorized), from, to)
    } else if from.amount < amount {
        (Err(EscrowError::InsufficientBalance), from, to)
    } else if to.amount + amount > u64::MAX {
        (Err(EscrowError::BalanceOverflow), from, to)
    } else {
        (
            Ok(()),
            TokenAccount { mint: from.mint, owner: from.owner, amount: (from.amount - amount) as u64 },
            TokenAccount { mint: to.mint, owner: to.owner, amount: (to.amount + amount) as u64 },
        )
    }
}

/// The value-transfer primitive: move `amount` units of the asset `mint`
/// from `from` to `to`, authorized by `authority`. Checks the asset type of
/// both accounts, the authority, the payer's balance and the receiver's
/// headroom; moves the funds only when every check passes.
pub fn transfer_checked(
    from: &mut TokenAccount,
    to: &mut TokenAccount,
    authority: Owner,
    amount: u64,
    mint: u64,
) -> (r: Result<(), EscrowError>)
    ensures
        ({
            let (rs, from2, to2) = transfer_spec(*old(from), *old(to), authority, amount, mint);
            r == rs && *final(from) == from2 && *final(to) == to2
        }),
{
    if from.mint != mint || to.mint != mint {
        Err(EscrowError::MintMismatch)
    } else if authority != from.owner {
        Err(EscrowError::Unauthorized)
    } else if from.amount < amount {
        Err(EscrowError::InsufficientBalance)
    } else if amount > u64::MAX - to.amount {
        Err(EscrowError::BalanceOverflow)
    } else {
        from.amount = from.amount - amount;
        to.amount = to.amount + amount;
        Ok(())
    }
}

/// What closing an account does, exactly: it succeeds if and only if the
/// presented authority owns the account and the account is empty.
pub open spec fn close_spec(account: TokenAccount, authority: Owner) -> Result<(), EscrowError> {
    if authority != account.owner {
        Err(EscrowError::Unauthorized)
    } else if account.amount != 0 {
        Err(EscrowError::AccountNotEmpty)
    } else {
        Ok(())
    }
}

/// The account-lifecycle primitive: destroy `account`, consuming it. An
/// account can only be closed by its owner, and only once its balance has
/// been moved out in full — closing never strands funds.
pub fn close_account(account: TokenAccount, authority: Owner) -> (r: Result<(), EscrowError>)
    ensures
        r == close_spec(account, authority),
{
    if authority != account.owner {
        Err(EscrowError::Unauthorized)
    } else if account.amount != 0 {
        Err(EscrowError::AccountNotEmpty)
    } else {
        Ok(())
    }
}

} // verus!
