//! The escrow state machine: the store of active escrows and the three
//! guarded transitions — initialize, cancel, exchange. Each transition is
//! all-or-nothing: it either performs its full effect or leaves every
//! account and every record unchanged, and its exact behaviour is pinned by
//! a specification-level transition function.

use vstd::prelude::*;
use crate::cancel::Cancel;
use crate::cancel::refund_spec;
use crate::escrow::CUSTODY_SALT;
use crate::escrow::Escrow;
use crate::escrow::derive_custody_authority;
use crate::exchange::Exchange;
use crate::exchange::taker_payment_spec;
use crate::exchange::withdraw_spec;
use crate::initialize::Initialize;
use crate::initialize::deposit_spec;
use crate::ledger::EscrowError;
use crate::ledger::Owner;
use crate::ledger::TokenAccount;

verus! {

/// One active escrow: the record of the agreement together with the vault
/// that custodies the locked asset. Created and funded by initialize,
/// destroyed by whichever of cancel or exchange settles it.
#[derive(Clone, Copy, PartialEq, Eq, Structural, Debug)]
pub struct ActiveEscrow {
    pub escrow: Escrow,
    pub vault: TokenAccount,
}

impl ActiveEscrow {
    /// A well-formed active escrow: the record itself is well-formed, and
    /// its vault holds exactly the locked amount of the locked asset, owned
    /// by the custody authority derived from the record's identity.
    pub open spec fn wf(self) -> bool {
        self.escrow.wf() && self.vault.mint == self.escrow.mint_a && self.vault.owner
            == self.escrow.custody_authority() && self.vault.amount
            == self.escrow.initializer_amount
    }

    /// Whether this escrow is the one named by `(initializer, seed)`.
    pub open spec fn is_record(self, initializer: u64, seed: u64) -> bool {
        self.escrow.initializer == initializer && self.escrow.seed == seed
    }
}

/// Whether two active escrows carry the same record identity.
pub open spec fn same_identity(a: ActiveEscrow, b: ActiveEscrow) -> bool {
    a.escrow.initializer == b.escrow.initializer && a.escrow.seed == b.escrow.seed
}

/// Well-formedness of the store: every active escrow is well-formed, and no
/// two active escrows share a record identity.
pub open spec fn wf_records(s: Seq<ActiveEscrow>) -> bool {
    (forall|i: int| 0 <= i < s.len() ==> (#[trigger] s[i]).wf()) && (forall|i: int, j: int|
        0 <= i < s.len() && 0 <= j < s.len() && i != j ==> !same_identity(
            #[trigger] s[i],
            #[trigger] s[j],
        ))
}

/// The index of the first active escrow named by `(initializer, seed)`, or
/// -1 if none is.
pub open spec fn find_active(s: Seq<ActiveEscrow>, initializer: u64, seed: u64) -> int
    decreases s.len(),
{
    if s.len() == 0 {
        -1
    } else if s[0].is_record(initializer, seed) {
        0
    } else {
        let rest = find_active(s.drop_first(), initializer, seed);
        if rest == -1 {
            -1
        } else {
            rest + 1
        }
    }
}

/// Whether an active escrow named by `(initializer, seed)` exists.
pub open spec fn has_active(s: Seq<ActiveEscrow>, initializer: u64, seed: u64) -> bool {
    find_active(s, initializer, seed) >= 0
}

/// What `find_active` finds: -1 exactly when no entry carries the identity,
/// and otherwise the first index that does.
pub proof fn lemma_find_active(s: Seq<ActiveEscrow>, initializer: u64, seed: u64)
    ensures
        find_active(s, initializer, seed) == -1 ==> forall|j: int|
            0 <= j < s.len() ==> !(#[trigger] s[j]).is_record(initializer, seed),
        find_active(s, initializer, seed) != -1 ==> {
            let k = find_active(s, initializer, seed);
            &&& 0 <= k < s.len()
            &&& s[k].is_record(initializer, seed)
            &&& forall|j: int| 0 <= j < k ==> !(#[trigger] s[j]).is_record(initializer, seed)
        },
    decreases s.len(),
{
    if s.len() == 0 {
    } else if s[0].is_record(initializer, seed) {
    } else {
        let rest = s.drop_first();
        lemma_find_active(rest, initializer, seed);
        assert(forall|j: int| 0 <= j < rest.len() ==> #[trigger] rest[j] == s[j + 1]);
        if find_active(s, initializer, seed) == -1 {
            assert forall|j: int| 0 <= j < s.len() implies !(#[trigger] s[j]).is_record(
                initializer,
                seed,
            ) by {
                if j > 0 {
                    assert(rest[j - 1] == s[j]);
                }
            }
        } else {
            let k = find_active(s, initializer, seed);
            assert(rest[k - 1] == s[k]);
            assert forall|j: int| 0 <= j < k implies !(#[trigger] s[j]).is_record(
                initializer,
                seed,
            ) by {
                if j > 0 {
                    assert(rest[j - 1] == s[j]);
                }
            }
        }
    }
}

/// Where `find_active` points after an entry of a different identity is
/// removed: the same record is found, at its shifted index.
pub proof fn lemma_find_active_after_remove(s: Seq<ActiveEscrow>, k: int, initializer: u64, seed: u64)
    requires
        0 <= k < s.len(),
        !s[k].is_record(initializer, seed),
    ensures
        ({
            let t = s.remove(k);
            let m = find_active(s, initializer, seed);
            let mt = find_active(t, initializer, seed);
            &&& (m == -1 ==> mt == -1)
            &&& (m >= 0 ==> mt == (if m < k { m } else { m - 1 }) && t[mt] == s[m])
        }),
{
    let t = s.remove(k);
    s.remove_ensures(k);
    lemma_find_active(s, initializer, seed);
    lemma_find_active(t, initializer, seed);
    let m = find_active(s, initializer, seed);
    let mt = find_active(t, initializer, seed);
    if m == -1 {
        if mt != -1 {
            let m0 = if mt < k { mt } else { mt + 1 };
            assert(t[mt] == s[m0]);
        }
    } else {
        let want = if m < k { m } else { m - 1 };
        assert(t[want] == s[m]);
        if mt == -1 {
        } else if mt < want {
            let m0 = if mt < k { mt } else { mt + 1 };
            assert(t[mt] == s[m0]);
        } else if mt > want {
            assert(!t[want].is_record(initializer, seed));
        }
    }
}

/// Where `find_active` points after an entry of a different identity is
/// appended: exactly where it pointed before.
pub proof fn lemma_find_active_after_push(
    s: Seq<ActiveEscrow>,
    entry: ActiveEscrow,
    initializer: u64,
    seed: u64,
)
    requires
        !entry.is_record(initializer, seed),
    ensures
        find_active(s.push(entry), initializer, seed) == find_active(s, initializer, seed),
{
    let t = s.push(entry);
    lemma_find_active(s, initializer, seed);
    lemma_find_active(t, initializer, seed);
    let m = find_active(s, initializer, seed);
    let mt = find_active(t, initializer, seed);
    if m == -1 {
        if mt != -1 {
            if mt < s.len() {
                assert(t[mt] == s[mt]);
            } else {
                assert(t[mt] == entry);
            }
        }
    } else {
        assert(t[m] == s[m]);
        if mt == -1 {
        } else if mt < m {
            assert(t[mt] == s[mt]);
        } else if mt > m {
            assert(!t[m].is_record(initializer, seed));
        }
    }
}

/// Removing an entry from a well-formed store leaves it well-formed.
pub proof fn lemma_wf_records_remove(s: Seq<ActiveEscrow>, k: int)
    requires
        wf_records(s),
        0 <= k < s.len(),
    ensures
        wf_records(s.remove(k)),
{
    let t = s.remove(k);
    s.remove_ensures(k);
    assert forall|i: int| 0 <= i < t.len() implies (#[trigger] t[i]).wf() by {
        if i < k {
            assert(t[i] == s[i]);
        } else {
            assert(t[i] == s[i + 1]);
        }
    }
    assert forall|i: int, j: int| 0 <= i < t.len() && 0 <= j < t.len() && i != j implies
        !same_identity(#[trigger] t[i], #[trigger] t[j]) by {
        let i0 = if i < k { i } else { i + 1 };
        let j0 = if j < k { j } else { j + 1 };
        assert(t[i] == s[i0]);
        assert(t[j] == s[j0]);
    }
}

/// After removing the one entry that carries an identity from a well-formed
/// store, no entry carries it any more.
pub proof fn lemma_removed_identity_gone(s: Seq<ActiveEscrow>, k: int)
    requires
        wf_records(s),
        0 <= k < s.len(),
    ensures
        !has_active(s.remove(k), s[k].escrow.initializer, s[k].escrow.seed),
{
    let initializer = s[k].escrow.initializer;
    let seed = s[k].escrow.seed;
    let t = s.remove(k);
    s.remove_ensures(k);
    lemma_find_active(t, initializer, seed);
    if has_active(t, initializer, seed) {
        let m = find_active(t, initializer, seed);
        let m0 = if m < k { m } else { m + 1 };
        assert(t[m] == s[m0]);
        assert(same_identity(s[m0], s[k]));
    }
}

/// The store of active escrows. Its contents are reachable only through
/// `new` and the three transitions, each of which preserves
/// well-formedness, so every machine a caller can hold is well-formed.
pub struct EscrowMachine {
    records: Vec<ActiveEscrow>,
}

impl View for EscrowMachine {
    type V = Seq<ActiveEscrow>;

    closed spec fn view(&self) -> Seq<ActiveEscrow> {
        self.records@
    }
}

impl EscrowMachine {
    /// Well-formedness of the machine: see `wf_records`.
    pub open spec fn wf(&self) -> bool {
        wf_records(self@)
    }

    /// A machine with no active escrows.
    pub fn new() -> (m: EscrowMachine)
        ensures
            m.wf(),
            m@.len() == 0,
    {
        EscrowMachine { records: Vec::new() }
    }

    /// Look up the active escrow named by `(initializer, seed)`.
    fn find_record(&self, initializer: u64, seed: u64) -> (r: Option<usize>)
        ensures
            match r {
                Some(k) => k < self@.len() && find_active(self@, initializer, seed) == k as int,
                None => find_active(self@, initializer, seed) == -1,
            },
    {
        proof {
            lemma_find_active(self@, initializer, seed);
        }
        let n = self.records.len();
        let mut k: usize = 0;
        while k < n
            invariant
                n == self@.len(),
                k <= n,
                find_active(self@, initializer, seed) == -1 || find_active(
                    self@,
                    initializer,
                    seed,
                ) >= k,
                forall|j: int| 0 <= j < k ==> !(#[trigger] self@[j]).is_record(initializer, seed),
            decreases n - k,
        {
            proof {
                lemma_find_active(self@, initializer, seed);
            }
            let e = &self.records[k];
            if e.escrow.initializer == initializer && e.escrow.seed == seed {
                return Some(k);
            }
            k = k + 1;
        }
        None
    }

    /// Whether an active escrow exists for `(initializer, seed)`.
    pub fn is_active(&self, initializer: u64, seed: u64) -> (r: bool)
        ensures
            r == has_active(self@, initializer, seed),
    {
        match self.find_record(initializer, seed) {
            Some(_) => true,
            None => false,
        }
    }

    /// The balance locked in the vault of the escrow named by
    /// `(initializer, seed)`, if one is active.
    pub fn vault_balance(&self, initializer: u64, seed: u64) -> (r: Option<u64>)
        ensures
            match r {
                Some(v) => has_active(self@, initializer, seed) && v == self@[find_active(
                    self@,
                    initializer,
                    seed,
                )].vault.amount,
                None => !has_active(self@, initializer, seed),
            },
    {
        match self.find_record(initializer, seed) {
            Some(k) => Some(self.records[k].vault.amount),
            None => None,
        }
    }

    /// How many escrows are active.
    pub fn active_count(&self) -> (n: usize)
        ensures
            n == self@.len(),
    {
        self.records.len()
    }
}

/// The initialize transition, exactly. Guards, in order: both amounts must
/// be strictly positive; no active record may exist for the identity; the
/// funding account must hold asset A and belong to the initializer. Then
/// the deposit moves `initializer_amount` into a fresh vault owned by the
/// derived custody authority, and the record becomes active. Any failure
/// leaves the store and the accounts unchanged.
pub open spec fn initialize_spec(
    s: Seq<ActiveEscrow>,
    ctx: Initialize,
    seed: u64,
    initializer_amount: u64,
    taker_amount: u64,
) -> (Result<(), EscrowError>, Seq<ActiveEscrow>, Initialize) {
    if initializer_amount == 0 || taker_amount == 0 {
        (Err(EscrowError::InvalidAmount), s, ctx)
    } else if has_active(s, ctx.initializer, seed) {
        (Err(EscrowError::DuplicateRecord), s, ctx)
    } else if ctx.initializer_ata_a.mint != ctx.mint_a {
        (Err(EscrowError::MintMismatch), s, ctx)
    } else if ctx.initializer_ata_a.owner != Owner::User(ctx.initializer) {
        (Err(EscrowError::OwnerMismatch), s, ctx)
    } else {
        let escrow = Escrow {
            seed,
            bump: CUSTODY_SALT,
            initializer: ctx.initializer,
            mint_a: ctx.mint_a,
            mint_b: ctx.mint_b,
            initializer_amount,
            taker_amount,
        };
        let vault = TokenAccount { mint: ctx.mint_a, owner: escrow.custody_authority(), amount: 0 };
        let (r, ctx2, vault2) = deposit_spec(ctx, vault, initializer_amount);
        match r {
            Err(e) => (Err(e), s, ctx),
            Ok(()) => (Ok(()), s.push(ActiveEscrow { escrow, vault: vault2 }), ctx2),
        }
    }
}

/// Create and fund an escrow in one atomic step: record the agreement's
/// terms, create the vault under the derived custody authority, and move
/// exactly `initializer_amount` of asset A from the initializer's account
/// into it, authorized by the initializer directly.
pub fn initialize(
    m: &mut EscrowMachine,
    ctx: &mut Initialize,
    seed: u64,
    initializer_amount: u64,
    taker_amount: u64,
) -> (r: Result<(), EscrowError>)
    requires
        old(m).wf(),
    ensures
        final(m).wf(),
        ({
            let (rs, s2, ctx2) = initialize_spec(
                old(m)@,
                *old(ctx),
                seed,
                initializer_amount,
                taker_amount,
            );
            r == rs && final(m)@ == s2 && *final(ctx) == ctx2
        }),
{
    if initializer_amount == 0 || taker_amount == 0 {
        return Err(EscrowError::InvalidAmount);
    }
    if m.find_record(ctx.initializer, seed).is_some() {
        return Err(EscrowError::DuplicateRecord);
    }
    if ctx.initializer_ata_a.mint != ctx.mint_a {
        return Err(EscrowError::MintMismatch);
    }
    if ctx.initializer_ata_a.owner != (Owner::User(ctx.initializer)) {
        return Err(EscrowError::OwnerMismatch);
    }
    let (authority, bump) = derive_custody_authority(ctx.initializer, seed);
    let escrow = ctx.initialize_escrow(seed, bump, initializer_amount, taker_amount);
    let mut vault = TokenAccount { mint: ctx.mint_a, owner: authority, amount: 0 };
    match ctx.deposit(&mut vault, initializer_amount) {
        Err(e) => Err(e),
        Ok(()) => {
            let entry = ActiveEscrow { escrow, vault };
            proof {
                let s = old(m)@;
                lemma_find_active(s, escrow.initializer, seed);
                let t = s.push(entry);
                assert forall|i: int| 0 <= i < t.len() implies (#[trigger] t[i]).wf() by {
                    if i < s.len() {
                        assert(t[i] == s[i]);
                    } else {
                        assert(t[i] == entry);
                    }
                }
                assert forall|i: int, j: int|
                    0 <= i < t.len() && 0 <= j < t.len() && i != j implies !same_identity(
                    #[trigger] t[i],
                    #[trigger] t[j],
                ) by {
                    if i < s.len() && j < s.len() {
                        assert(t[i] == s[i] && t[j] == s[j]);
                    } else if i < s.len() {
                        assert(t[i] == s[i] && t[j] == entry);
                        assert(!s[i].is_record(escrow.initializer, seed));
                    } else {
                        assert(t[i] == entry && t[j] == s[j]);
                        assert(!s[j].is_record(escrow.initializer, seed));
                    }
                }
            }
            m.records.push(entry);
            Ok(())
        },
    }
}

/// The cancel transition, exactly. The record is named by the context's
/// `initializer` together with `seed`; `caller` is the identity that signed
/// the request. Guards, in order: the record must be active; the caller
/// must be the recorded initializer; the supplied asset type and refund
/// account must match the record and belong to the initializer. Then the
/// vault's entire balance is refunded under the custody authority and both
/// vault and record are destroyed. Any failure leaves the store and the
/// accounts unchanged.
pub open spec fn cancel_spec(s: Seq<ActiveEscrow>, ctx: Cancel, caller: u64, seed: u64) -> (
    Result<(), EscrowError>,
    Seq<ActiveEscrow>,
    Cancel,
) {
    let k = find_active(s, ctx.initializer, seed);
    if k == -1 {
        (Err(EscrowError::NotActive), s, ctx)
    } else {
        let entry = s[k];
        if caller != entry.escrow.initializer {
            (Err(EscrowError::Unauthorized), s, ctx)
        } else if ctx.mint_a != entry.escrow.mint_a || ctx.initializer_ata_a.mint
            != entry.escrow.mint_a {
            (Err(EscrowError::MintMismatch), s, ctx)
        } else if ctx.initializer_ata_a.owner != Owner::User(entry.escrow.initializer) {
            (Err(EscrowError::OwnerMismatch), s, ctx)
        } else {
            let (r, ctx2) = refund_spec(ctx, entry.escrow, entry.vault);
            match r {
                Err(e) => (Err(e), s, ctx),
                Ok(()) => (Ok(()), s.remove(k), ctx2),
            }
        }
    }
}

/// Unwind an escrow: refund the vault's entire balance to the recorded
/// initializer's asset-A account, authorized by the custody authority, and
/// destroy the vault and the record. Only the recorded initializer may
/// cancel.
pub fn cancel(m: &mut EscrowMachine, ctx: &mut Cancel, caller: u64, seed: u64) -> (r: Result<
    (),
    EscrowError,
>)
    requires
        old(m).wf(),
    ensures
        final(m).wf(),
        ({
            let (rs, s2, ctx2) = cancel_spec(old(m)@, *old(ctx), caller, seed);
            r == rs && final(m)@ == s2 && *final(ctx) == ctx2
        }),
{
    let k = match m.find_record(ctx.initializer, seed) {
        None => {
            return Err(EscrowError::NotActive);
        },
        Some(k) => k,
    };
    let entry = m.records[k];
    if caller != entry.escrow.initializer {
        return Err(EscrowError::Unauthorized);
    }
    if ctx.mint_a != entry.escrow.mint_a || ctx.initializer_ata_a.mint != entry.escrow.mint_a {
        return Err(EscrowError::MintMismatch);
    }
    if ctx.initializer_ata_a.owner != (Owner::User(entry.escrow.initializer)) {
        return Err(EscrowError::OwnerMismatch);
    }
    match ctx.refund_and_close_vault(&entry.escrow, entry.vault) {
        Err(e) => Err(e),
        Ok(()) => {
            proof {
                lemma_wf_records_remove(old(m)@, k as int);
            }
            m.records.remove(k);
            Ok(())
        },
    }
}

/// The exchange transition, exactly. The record is named by the context's
/// `initializer` together with `seed`. Guards, in order: the record must be
/// active; the supplied asset types must match the record; each of the
/// three accounts must hold the right asset and belong to the right party.
/// Then, atomically, the taker pays `taker_amount` of asset B to the
/// initializer, and the vault's entire balance of asset A goes to the
/// taker; vault and record are destroyed. Any failure — including a taker
/// balance short by one unit — leaves the store and every account
/// unchanged.
pub open spec fn exchange_spec(s: Seq<ActiveEscrow>, ctx: Exchange, seed: u64) -> (
    Result<(), EscrowError>,
    Seq<ActiveEscrow>,
    Exchange,
) {
    let k = find_active(s, ctx.initializer, seed);
    if k == -1 {
        (Err(EscrowError::NotActive), s, ctx)
    } else {
        let entry = s[k];
        if ctx.mint_a != entry.escrow.mint_a || ctx.mint_b != entry.escrow.mint_b {
            (Err(EscrowError::MintMismatch), s, ctx)
        } else if ctx.taker_ata_b.mint != entry.escrow.mint_b || ctx.initializer_ata_b.mint
            != entry.escrow.mint_b || ctx.taker_ata_a.mint != entry.escrow.mint_a {
            (Err(EscrowError::MintMismatch), s, ctx)
        } else if ctx.taker_ata_b.owner != Owner::User(ctx.taker) {
            (Err(EscrowError::OwnerMismatch), s, ctx)
        } else if ctx.initializer_ata_b.owner != Owner::User(entry.escrow.initializer) {
            (Err(EscrowError::OwnerMismatch), s, ctx)
        } else if ctx.taker_ata_a.owner != Owner::User(ctx.taker) {
            (Err(EscrowError::OwnerMismatch), s, ctx)
        } else {
            let (r1, ctx1) = taker_payment_spec(ctx, entry.escrow.taker_amount);
            match r1 {
                Err(e) => (Err(e), s, ctx),
                Ok(()) => {
                    let (r2, ctx2) = withdraw_spec(ctx1, entry.escrow, entry.vault);
                    match r2 {
                        Err(e) => (Err(e), s, ctx),
                        Ok(()) => (Ok(()), s.remove(k), ctx2),
                    }
                },
            }
        }
    }
}

/// Settle an escrow: in a single atomic settlement, move exactly the
/// recorded `taker_amount` of asset B from the taker to the initializer,
/// authorized by the taker, and the vault's entire balance of asset A to
/// the taker, authorized by the custody authority; then destroy the vault
/// and the record. Both legs take effect, or neither does.
pub fn exchange(m: &mut EscrowMachine, ctx: &mut Exchange, seed: u64) -> (r: Result<
    (),
    EscrowError,
>)
    requires
        old(m).wf(),
    ensures
        final(m).wf(),
        ({
            let (rs, s2, ctx2) = exchange_spec(old(m)@, *old(ctx), seed);
            r == rs && final(m)@ == s2 && *final(ctx) == ctx2
        }),
{
    let k = match m.find_record(ctx.initializer, seed) {
        None => {
            return Err(EscrowError::NotActive);
        },
        Some(k) => k,
    };
    let entry = m.records[k];
    if ctx.mint_a != entry.escrow.mint_a || ctx.mint_b != entry.escrow.mint_b {
        return Err(EscrowError::MintMismatch);
    }
    if ctx.taker_ata_b.mint != entry.escrow.mint_b || ctx.initializer_ata_b.mint
        != entry.escrow.mint_b || ctx.taker_ata_a.mint != entry.escrow.mint_a {
        return Err(EscrowError::MintMismatch);
    }
    if ctx.taker_ata_b.owner != (Owner::User(ctx.taker)) {
        return Err(EscrowError::OwnerMismatch);
    }
    if ctx.initializer_ata_b.owner != (Owner::User(entry.escrow.initializer)) {
        return Err(EscrowError::OwnerMismatch);
    }
    if ctx.taker_ata_a.owner != (Owner::User(ctx.taker)) {
        return Err(EscrowError::OwnerMismatch);
    }
    // Settle on a scratch copy of the accounts, so that a failure in either
    // leg leaves the caller's accounts untouched.
    let mut work = *ctx;
    match work.deposit(entry.escrow.taker_amount) {
        Err(e) => {
            return Err(e);
        },
        Ok(()) => {},
    }
    match work.withdraw_and_close_vault(&entry.escrow, entry.vault) {
        Err(e) => {
            return Err(e);
        },
        Ok(()) => {},
    }
    *ctx = work;
    proof {
        lemma_wf_records_remove(old(m)@, k as int);
    }
    m.records.remove(k);
    Ok(())
}

} // verus!
