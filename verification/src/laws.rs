//! The laws of the escrow machine, each proved over the specification-level
//! transition functions: conservation, atomicity, exclusivity of
//! settlement, authorization of cancel, and non-replay of initialize.

use vstd::prelude::*;
use crate::cancel::Cancel;
use crate::escrow::Escrow;
use crate::escrow::custody_authority_of;
use crate::escrow::CUSTODY_SALT;
use crate::exchange::Exchange;
use crate::initialize::Initialize;
use crate::ledger::EscrowError;
use crate::ledger::TokenAccount;
use crate::machine::ActiveEscrow;
use crate::machine::cancel_spec;
use crate::machine::exchange_spec;
use crate::machine::find_active;
use crate::machine::has_active;
use crate::machine::initialize_spec;
use crate::machine::lemma_find_active;
use crate::machine::lemma_find_active_after_push;
use crate::machine::lemma_find_active_after_remove;
use crate::machine::lemma_removed_identity_gone;
use crate::machine::wf_records;

verus! {

/// Conservation: a successful exchange moves exactly the recorded amounts —
/// the taker's asset-A gain is the vault's entire locked balance, which is
/// the record's `initializer_amount`, and the initializer's asset-B gain is
/// the taker's asset-B loss, which is the record's `taker_amount`. No asset
/// is created or destroyed.
pub proof fn lemma_exchange_conservation(s: Seq<ActiveEscrow>, ctx: Exchange, seed: u64)
    requires
        wf_records(s),
        exchange_spec(s, ctx, seed).0 is Ok,
    ensures
        ({
            let k = find_active(s, ctx.initializer, seed);
            let e = s[k].escrow;
            let ctx2 = exchange_spec(s, ctx, seed).2;
            &&& ctx2.taker_ata_a.amount == ctx.taker_ata_a.amount + e.initializer_amount
            &&& ctx2.taker_ata_a.amount == ctx.taker_ata_a.amount + s[k].vault.amount
            &&& ctx2.initializer_ata_b.amount == ctx.initializer_ata_b.amount + e.taker_amount
            &&& ctx2.taker_ata_b.amount == ctx.taker_ata_b.amount - e.taker_amount
            &&& ctx2.taker_ata_b.amount + ctx2.initializer_ata_b.amount == ctx.taker_ata_b.amount
                + ctx.initializer_ata_b.amount
        }),
{
    lemma_find_active(s, ctx.initializer, seed);
    let k = find_active(s, ctx.initializer, seed);
    assert(s[k].wf());
}

/// Atomicity of initialize: a failing initialize leaves the store and the
/// initializer's account completely unchanged.
pub proof fn lemma_initialize_atomic(
    s: Seq<ActiveEscrow>,
    ctx: Initialize,
    seed: u64,
    initializer_amount: u64,
    taker_amount: u64,
)
    ensures
        ({
            let (r, s2, ctx2) = initialize_spec(s, ctx, seed, initializer_amount, taker_amount);
            r is Err ==> s2 == s && ctx2 == ctx
        }),
{
}

/// Atomicity of cancel: a failing cancel leaves the store — the vault
/// balance included — and the refund account completely unchanged.
pub proof fn lemma_cancel_atomic(s: Seq<ActiveEscrow>, ctx: Cancel, caller: u64, seed: u64)
    ensures
        ({
            let (r, s2, ctx2) = cancel_spec(s, ctx, caller, seed);
            r is Err ==> s2 == s && ctx2 == ctx
        }),
{
}

/// Atomicity of exchange: a failing exchange — for instance, a taker
/// balance short by one unit — leaves the store, the vault balance and all
/// three accounts completely unchanged. Neither leg of the settlement takes
/// effect without the other.
pub proof fn lemma_exchange_atomic(s: Seq<ActiveEscrow>, ctx: Exchange, seed: u64)
    ensures
        ({
            let (r, s2, ctx2) = exchange_spec(s, ctx, seed);
            r is Err ==> s2 == s && ctx2 == ctx
        }),
{
}

/// Exclusivity after cancel: once a cancel succeeds for a record, the
/// record is gone, and any later cancel or exchange against the same
/// identity fails with `NotActive`, moving no funds.
pub proof fn lemma_exclusive_after_cancel(
    s: Seq<ActiveEscrow>,
    ctx: Cancel,
    caller: u64,
    seed: u64,
    later_cancel: Cancel,
    later_caller: u64,
    later_exchange: Exchange,
)
    requires
        wf_records(s),
        cancel_spec(s, ctx, caller, seed).0 is Ok,
        later_cancel.initializer == ctx.initializer,
        later_exchange.initializer == ctx.initializer,
    ensures
        ({
            let s2 = cancel_spec(s, ctx, caller, seed).1;
            &&& !has_active(s2, ctx.initializer, seed)
            &&& cancel_spec(s2, later_cancel, later_caller, seed) == (
                Err::<(), EscrowError>(EscrowError::NotActive),
                s2,
                later_cancel,
            )
            &&& exchange_spec(s2, later_exchange, seed) == (
                Err::<(), EscrowError>(EscrowError::NotActive),
                s2,
                later_exchange,
            )
        }),
{
    lemma_find_active(s, ctx.initializer, seed);
    let k = find_active(s, ctx.initializer, seed);
    lemma_removed_identity_gone(s, k);
    let s2 = cancel_spec(s, ctx, caller, seed).1;
    lemma_find_active(s2, ctx.initializer, seed);
}

/// Exclusivity after exchange: once an exchange succeeds for a record, the
/// record is gone, and any later cancel or exchange against the same
/// identity fails with `NotActive`, moving no funds.
pub proof fn lemma_exclusive_after_exchange(
    s: Seq<ActiveEscrow>,
    ctx: Exchange,
    seed: u64,
    later_cancel: Cancel,
    later_caller: u64,
    later_exchange: Exchange,
)
    requires
        wf_records(s),
        exchange_spec(s, ctx, seed).0 is Ok,
        later_cancel.initializer == ctx.initializer,
        later_exchange.initializer == ctx.initializer,
    ensures
        ({
            let s2 = exchange_spec(s, ctx, seed).1;
            &&& !has_active(s2, ctx.initializer, seed)
            &&& cancel_spec(s2, later_cancel, later_caller, seed) == (
                Err::<(), EscrowError>(EscrowError::NotActive),
                s2,
                later_cancel,
            )
            &&& exchange_spec(s2, later_exchange, seed) == (
                Err::<(), EscrowError>(EscrowError::NotActive),
                s2,
                later_exchange,
            )
        }),
{
    lemma_find_active(s, ctx.initializer, seed);
    let k = find_active(s, ctx.initializer, seed);
    lemma_removed_identity_gone(s, k);
    let s2 = exchange_spec(s, ctx, seed).1;
    lemma_find_active(s2, ctx.initializer, seed);
}

/// Authorization: a cancel signed by any identity other than the recorded
/// initializer fails with `Unauthorized`, and neither the vault balance nor
/// anything else changes.
pub proof fn lemma_cancel_authorization(s: Seq<ActiveEscrow>, ctx: Cancel, caller: u64, seed: u64)
    requires
        has_active(s, ctx.initializer, seed),
        caller != ctx.initializer,
    ensures
        cancel_spec(s, ctx, caller, seed) == (
            Err::<(), EscrowError>(EscrowError::Unauthorized),
            s,
            ctx,
        ),
{
    lemma_find_active(s, ctx.initializer, seed);
}

/// Non-replay: an initialize for an `(initializer, seed)` pair that already
/// has an active record fails — with `DuplicateRecord` whenever the offered
/// amounts are themselves valid — and no second record or vault is created.
pub proof fn lemma_initialize_no_replay(
    s: Seq<ActiveEscrow>,
    ctx: Initialize,
    seed: u64,
    initializer_amount: u64,
    taker_amount: u64,
)
    requires
        has_active(s, ctx.initializer, seed),
    ensures
        initialize_spec(s, ctx, seed, initializer_amount, taker_amount).0 is Err,
        initialize_spec(s, ctx, seed, initializer_amount, taker_amount).1 == s,
        initialize_spec(s, ctx, seed, initializer_amount, taker_amount).2 == ctx,
        initializer_amount != 0 && taker_amount != 0 ==> initialize_spec(
            s,
            ctx,
            seed,
            initializer_amount,
            taker_amount,
        ).0 == Err::<(), EscrowError>(EscrowError::DuplicateRecord),
{
}

/// Independence of records: an initialize for one identity leaves every
/// other active escrow exactly as it was — same record, same vault.
pub proof fn lemma_initialize_leaves_others(
    s: Seq<ActiveEscrow>,
    ctx: Initialize,
    seed: u64,
    initializer_amount: u64,
    taker_amount: u64,
    other_initializer: u64,
    other_seed: u64,
)
    requires
        !(other_initializer == ctx.initializer && other_seed == seed),
    ensures
        ({
            let s2 = initialize_spec(s, ctx, seed, initializer_amount, taker_amount).1;
            &&& has_active(s2, other_initializer, other_seed) == has_active(
                s,
                other_initializer,
                other_seed,
            )
            &&& has_active(s, other_initializer, other_seed) ==> s2[find_active(
                s2,
                other_initializer,
                other_seed,
            )] == s[find_active(s, other_initializer, other_seed)]
        }),
{
    let (r, s2, ctx2) = initialize_spec(s, ctx, seed, initializer_amount, taker_amount);
    if r is Ok {
        let entry = s2[s.len() as int];
        lemma_find_active_after_push(s, entry, other_initializer, other_seed);
        assert(s2 == s.push(entry));
        lemma_find_active(s, other_initializer, other_seed);
        let m = find_active(s, other_initializer, other_seed);
        if m >= 0 {
            assert(s2[m] == s[m]);
        }
    }
}

/// Independence of records: a cancel of one escrow leaves every other
/// active escrow exactly as it was — no operation touches another record's
/// vault.
pub proof fn lemma_cancel_leaves_others(
    s: Seq<ActiveEscrow>,
    ctx: Cancel,
    caller: u64,
    seed: u64,
    other_initializer: u64,
    other_seed: u64,
)
    requires
        !(other_initializer == ctx.initializer && other_seed == seed),
    ensures
        ({
            let s2 = cancel_spec(s, ctx, caller, seed).1;
            &&& has_active(s2, other_initializer, other_seed) == has_active(
                s,
                other_initializer,
                other_seed,
            )
            &&& has_active(s, other_initializer, other_seed) ==> s2[find_active(
                s2,
                other_initializer,
                other_seed,
            )] == s[find_active(s, other_initializer, other_seed)]
        }),
{
    let (r, s2, ctx2) = cancel_spec(s, ctx, caller, seed);
    if r is Ok {
        let k = find_active(s, ctx.initializer, seed);
        lemma_find_active(s, ctx.initializer, seed);
        lemma_find_active_after_remove(s, k, other_initializer, other_seed);
        lemma_find_active(s, other_initializer, other_seed);
    }
}

/// Independence of records: an exchange settling one escrow leaves every
/// other active escrow exactly as it was — no operation touches another
/// record's vault.
pub proof fn lemma_exchange_leaves_others(
    s: Seq<ActiveEscrow>,
    ctx: Exchange,
    seed: u64,
    other_initializer: u64,
    other_seed: u64,
)
    requires
        !(other_initializer == ctx.initializer && other_seed == seed),
    ensures
        ({
            let s2 = exchange_spec(s, ctx, seed).1;
            &&& has_active(s2, other_initializer, other_seed) == has_active(
                s,
                other_initializer,
                other_seed,
            )
            &&& has_active(s, other_initializer, other_seed) ==> s2[find_active(
                s2,
                other_initializer,
                other_seed,
            )] == s[find_active(s, other_initializer, other_seed)]
        }),
{
    let (r, s2, ctx2) = exchange_spec(s, ctx, seed);
    if r is Ok {
        let k = find_active(s, ctx.initializer, seed);
        lemma_find_active(s, ctx.initializer, seed);
        lemma_find_active_after_remove(s, k, other_initializer, other_seed);
        lemma_find_active(s, other_initializer, other_seed);
    }
}

/// What a successful initialize leaves behind: the record is active under
/// its `(initializer, seed)` identity, carries exactly the agreed terms,
/// its vault holds exactly `initializer_amount` of asset A under the
/// derived custody authority, and the initializer's account has paid
/// exactly that amount.
pub proof fn lemma_initialize_creates_active(
    s: Seq<ActiveEscrow>,
    ctx: Initialize,
    seed: u64,
    initializer_amount: u64,
    taker_amount: u64,
)
    requires
        wf_records(s),
        initialize_spec(s, ctx, seed, initializer_amount, taker_amount).0 is Ok,
    ensures
        ({
            let (r, s2, ctx2) = initialize_spec(s, ctx, seed, initializer_amount, taker_amount);
            &&& has_active(s2, ctx.initializer, seed)
            &&& s2[find_active(s2, ctx.initializer, seed)] == (ActiveEscrow {
                escrow: Escrow {
                    seed,
                    bump: CUSTODY_SALT,
                    initializer: ctx.initializer,
                    mint_a: ctx.mint_a,
                    mint_b: ctx.mint_b,
                    initializer_amount,
                    taker_amount,
                },
                vault: TokenAccount {
                    mint: ctx.mint_a,
                    owner: custody_authority_of(ctx.initializer, seed),
                    amount: initializer_amount,
                },
            })
            &&& ctx2.initializer_ata_a.amount == ctx.initializer_ata_a.amount - initializer_amount
        }),
{
    let (r, s2, ctx2) = initialize_spec(s, ctx, seed, initializer_amount, taker_amount);
    lemma_find_active(s, ctx.initializer, seed);
    lemma_find_active(s2, ctx.initializer, seed);
    let k = find_active(s2, ctx.initializer, seed);
    if k == -1 {
        assert(s2[s.len() as int].is_record(ctx.initializer, seed));
    }
    if k < s.len() {
        assert(s2[k] == s[k]);
    }
}

/// What a successful cancel leaves behind: the record is gone, and the
/// initializer's asset-A account has been refunded exactly the recorded
/// `initializer_amount` — its balance returns to its pre-fund level.
pub proof fn lemma_cancel_refunds(s: Seq<ActiveEscrow>, ctx: Cancel, caller: u64, seed: u64)
    requires
        wf_records(s),
        cancel_spec(s, ctx, caller, seed).0 is Ok,
    ensures
        ({
            let k = find_active(s, ctx.initializer, seed);
            let e = s[k].escrow;
            let (r, s2, ctx2) = cancel_spec(s, ctx, caller, seed);
            &&& !has_active(s2, ctx.initializer, seed)
            &&& ctx2.initializer_ata_a.amount == ctx.initializer_ata_a.amount + e.initializer_amount
            &&& ctx2.initializer_ata_a.amount == ctx.initializer_ata_a.amount + s[k].vault.amount
        }),
{
    lemma_find_active(s, ctx.initializer, seed);
    let k = find_active(s, ctx.initializer, seed);
    assert(s[k].wf());
    lemma_removed_identity_gone(s, k);
}

} // verus!
