//! The account/client lifecycle and the fan-out orchestration.
//!
//! The manager progresses from no client over a ready client to a listed
//! account set, then requests one independent fetch per account and folds
//! each result into the aggregate store the moment it arrives. Failures
//! degrade, never crash: a missing account service leaves the manager
//! clientless, a failed listing leaves the account set empty, and one
//! account's failed fetch leaves every other account's result untouched.

use vstd::prelude::*;

use crate::error::Error;
use crate::models::{Account, AccountView, Calendar, CalendarView};
use crate::store::{store_keys, store_map, CalendarStore, StoreEntry};

verus! {

/// How far the lifecycle has progressed. The final stage — calendars
/// loaded, partially and per account — is carried by the store itself,
/// which fills one account at a time as fetches settle.
#[derive(Debug, Clone, Copy, PartialEq, Eq, Structural)]
pub enum LifecyclePhase {
    /// No account-service client; the manager degrades silently.
    NoClient,
    /// A client exists; accounts can be listed.
    ClientReady,
    /// Accounts are listed; fetches can fan out.
    AccountsListed,
    /// One fetch per account is requested; results arrive independently.
    CalendarsLoading,
}

/// The lifecycle manager: the phase, the listed accounts, and the aggregate
/// store the fetches feed.
#[derive(Debug)]
pub struct LifecycleManager {
    pub phase: LifecyclePhase,
    pub accounts: Vec<Account>,
    pub store: CalendarStore,
}

impl LifecycleManager {
    /// Well-formedness: the store keeps one entry per account.
    pub open spec fn wf(self) -> bool {
        self.store.wf()
    }

    /// The state at application launch: clientless, no accounts, empty
    /// store.
    pub fn new() -> (m: LifecycleManager)
        ensures
            m.wf(),
            m.phase == LifecyclePhase::NoClient,
            m.accounts@.len() == 0,
            m.store@ == Seq::<StoreEntry>::empty(),
    {
        LifecycleManager {
            phase: LifecyclePhase::NoClient,
            accounts: Vec::new(),
            store: CalendarStore::new(),
        }
    }

    /// Consumes the attempt to construct the account-service client. On
    /// success the manager is ready to list accounts; on failure it stays
    /// clientless with nothing else changed — no accounts, no calendars,
    /// no error raised. Returns whether accounts should now be listed.
    pub fn on_client_constructed(&mut self, ok: bool) -> (list_accounts: bool)
        requires
            old(self).wf(),
        ensures
            final(self).wf(),
            list_accounts == ok,
            ok ==> final(self).phase == LifecyclePhase::ClientReady,
            !ok ==> final(self).phase == old(self).phase,
            final(self).accounts == old(self).accounts,
            final(self).store == old(self).store,
    {
        if ok {
            self.phase = LifecyclePhase::ClientReady;
        }
        ok
    }

    /// Consumes the account service's answer to the listing. A successful
    /// answer installs the accounts in the order the service gave them; a
    /// failure is only logged by the caller and leaves the account set as it
    /// was.
    pub fn on_accounts_listed(&mut self, answer: Result<Vec<Account>, Error>)
        requires
            old(self).wf(),
            old(self).phase == LifecyclePhase::ClientReady,
        ensures
            final(self).wf(),
            final(self).store == old(self).store,
            match answer {
                Ok(accounts) => final(self).accounts == accounts && final(self).phase
                    == LifecyclePhase::AccountsListed,
                Err(_) => final(self).accounts == old(self).accounts && final(self).phase
                    == old(self).phase,
            },
    {
        match answer {
            Ok(accounts) => {
                self.accounts = accounts;
                self.phase = LifecyclePhase::AccountsListed;
            },
            Err(_) => (),
        }
    }

    /// The fan-out: one independent fetch request per listed account, in
    /// listing order. Each request is served by its own adapter and session;
    /// no request waits on another.
    pub fn fetch_requests(&mut self) -> (r: Vec<Account>)
        requires
            old(self).wf(),
            old(self).phase == LifecyclePhase::AccountsListed,
        ensures
            final(self).wf(),
            final(self).phase == LifecyclePhase::CalendarsLoading,
            final(self).accounts == old(self).accounts,
            final(self).store == old(self).store,
            r.deep_view() == old(self).accounts.deep_view(),
    {
        self.phase = LifecyclePhase::CalendarsLoading;
        let mut r: Vec<Account> = Vec::new();
        let n = self.accounts.len();
        let mut i: usize = 0;
        while i < n
            invariant
                n == self.accounts@.len(),
                i <= n,
                r@.len() == i,
                forall|j: int| 0 <= j < i ==> #[trigger] r@[j]@ == self.accounts@[j]@,
            decreases n - i,
        {
            r.push(self.accounts[i].clone());
            i = i + 1;
        }
        proof {
            assert(r.deep_view() =~= self.accounts.deep_view());
        }
        r
    }

    /// Consumes one account's settled fetch. A successful result overwrites
    /// that account's entry in the store (last write wins); a failure leaves
    /// the whole state untouched — it never cancels, delays or corrupts any
    /// other account's fetch or its merge.
    pub fn on_calendars_fetched(&mut self, account: Account, result: Result<Vec<Calendar>, Error>)
        requires
            old(self).wf(),
        ensures
            final(self).wf(),
            final(self).phase == old(self).phase,
            final(self).accounts == old(self).accounts,
            match result {
                Ok(calendars) => {
                    &&& store_map(final(self).store@) == store_map(old(self).store@).insert(
                        account@,
                        calendars.deep_view(),
                    )
                    &&& store_map(old(self).store@).dom().contains(account@) ==> store_keys(
                        final(self).store@,
                    ) == store_keys(old(self).store@)
                    &&& !store_map(old(self).store@).dom().contains(account@) ==> store_keys(
                        final(self).store@,
                    ) == store_keys(old(self).store@).push(account@)
                },
                Err(_) => final(self).store == old(self).store,
            },
    {
        match result {
            Ok(calendars) => self.store.merge(account, calendars),
            Err(_) => (),
        }
    }
}

/// One settled fetch at the mathematical level: the account, and its
/// calendars if the fetch succeeded.
pub type FetchOutcome = (AccountView, Option<Seq<CalendarView>>);

/// Whether no account settles twice: the fan-out issues one fetch per
/// distinct account.
pub open spec fn distinct_accounts(outcomes: Seq<FetchOutcome>) -> bool {
    forall|i: int, j: int| 0 <= i < j < outcomes.len() ==> outcomes[i].0 != outcomes[j].0
}

/// The aggregate mapping after a sequence of settled fetches is folded in,
/// in settling order: each success overwrites its account's entry, each
/// failure changes nothing. One fold step is exactly what
/// [`LifecycleManager::on_calendars_fetched`] ensures of the store.
pub open spec fn apply_outcomes(
    m: Map<AccountView, Seq<CalendarView>>,
    outcomes: Seq<FetchOutcome>,
) -> Map<AccountView, Seq<CalendarView>>
    decreases outcomes.len(),
{
    if outcomes.len() == 0 {
        m
    } else {
        let rest = apply_outcomes(m, outcomes.drop_last());
        match outcomes.last().1 {
            Some(cals) => rest.insert(outcomes.last().0, cals),
            None => rest,
        }
    }
}

/// Folding in one more settled fetch is one more step.
pub proof fn lemma_apply_outcomes_step(
    m: Map<AccountView, Seq<CalendarView>>,
    outcomes: Seq<FetchOutcome>,
    outcome: FetchOutcome,
)
    ensures
        apply_outcomes(m, outcomes.push(outcome)) == (match outcome.1 {
            Some(cals) => apply_outcomes(m, outcomes).insert(outcome.0, cals),
            None => apply_outcomes(m, outcomes),
        }),
{
    assert(outcomes.push(outcome).drop_last() =~= outcomes);
    assert(outcomes.push(outcome).last() == outcome);
}

/// Law: an account no settled fetch names is untouched by the fold — it is
/// in the aggregate mapping exactly when it was before, with its old
/// calendars.
pub proof fn lemma_untouched_account(
    m: Map<AccountView, Seq<CalendarView>>,
    outcomes: Seq<FetchOutcome>,
    k: AccountView,
)
    requires
        forall|i: int| 0 <= i < outcomes.len() ==> (#[trigger] outcomes[i]).0 != k,
    ensures
        apply_outcomes(m, outcomes).dom().contains(k) <==> m.dom().contains(k),
        m.dom().contains(k) ==> apply_outcomes(m, outcomes)[k] == m[k],
    decreases outcomes.len(),
{
    if outcomes.len() > 0 {
        let prefix = outcomes.drop_last();
        assert(forall|i: int| 0 <= i < prefix.len() ==> #[trigger] prefix[i] == outcomes[i]);
        lemma_untouched_account(m, prefix, k);
        assert(outcomes.last().0 != k);
    }
}

/// Law: fan-out independence. When each account settles at most once, the
/// aggregate mapping after all fetches settle holds exactly the successful
/// accounts' results: a success is mapped to precisely its calendars, and a
/// failed account keeps whatever the mapping held for it before (nothing, if
/// nothing) — unaffected by any other account's outcome.
pub proof fn lemma_fanout_independence(
    m: Map<AccountView, Seq<CalendarView>>,
    outcomes: Seq<FetchOutcome>,
)
    requires
        distinct_accounts(outcomes),
    ensures
        forall|i: int|
            0 <= i < outcomes.len() && outcomes[i].1 is Some ==> {
                &&& apply_outcomes(m, outcomes).dom().contains(#[trigger] outcomes[i].0)
                &&& apply_outcomes(m, outcomes)[outcomes[i].0] == outcomes[i].1->0
            },
        forall|i: int|
            0 <= i < outcomes.len() && outcomes[i].1 is None ==> {
                &&& (apply_outcomes(m, outcomes).dom().contains(#[trigger] outcomes[i].0)
                    <==> m.dom().contains(outcomes[i].0))
                &&& (m.dom().contains(outcomes[i].0) ==> apply_outcomes(m, outcomes)[outcomes[i].0]
                    == m[outcomes[i].0])
            },
    decreases outcomes.len(),
{
    if outcomes.len() > 0 {
        let prefix = outcomes.drop_last();
        let last = outcomes.last();
        lemma_fanout_independence(m, prefix);
        let rest = apply_outcomes(m, prefix);
        let result = apply_outcomes(m, outcomes);
        assert(forall|i: int| 0 <= i < prefix.len() ==> #[trigger] prefix[i] == outcomes[i]);
        assert(forall|i: int| 0 <= i < prefix.len() ==> #[trigger] outcomes[i].0 != last.0);

        assert forall|i: int|
            0 <= i < outcomes.len() && outcomes[i].1 is Some implies {
                &&& result.dom().contains(#[trigger] outcomes[i].0)
                &&& result[outcomes[i].0] == outcomes[i].1->0
            } by {
            if i < outcomes.len() - 1 {
                assert(prefix[i].1 is Some);
                assert(rest.dom().contains(prefix[i].0));
                assert(rest[prefix[i].0] == prefix[i].1->0);
                assert(outcomes[i].0 != last.0);
            }
        }

        assert forall|i: int|
            0 <= i < outcomes.len() && outcomes[i].1 is None implies {
                &&& (result.dom().contains(#[trigger] outcomes[i].0) <==> m.dom().contains(
                    outcomes[i].0,
                ))
                &&& (m.dom().contains(outcomes[i].0) ==> result[outcomes[i].0] == m[outcomes[i].0])
            } by {
            if i < outcomes.len() - 1 {
                assert(prefix[i].1 is None);
                assert(rest.dom().contains(prefix[i].0) <==> m.dom().contains(prefix[i].0));
                assert(outcomes[i].0 != last.0);
            } else {
                lemma_untouched_account(m, prefix, last.0);
            }
        }
    }
}

/// Law: the order fetches settle in does not matter. Two settling orders of
/// the same set of per-account outcomes — each account settling at most
/// once — leave the aggregate mapping identical.
pub proof fn lemma_fanout_order_irrelevant(
    m: Map<AccountView, Seq<CalendarView>>,
    first_order: Seq<FetchOutcome>,
    second_order: Seq<FetchOutcome>,
)
    requires
        distinct_accounts(first_order),
        distinct_accounts(second_order),
        forall|p: FetchOutcome| first_order.contains(p) <==> second_order.contains(p),
    ensures
        apply_outcomes(m, first_order) == apply_outcomes(m, second_order),
{
    lemma_fanout_independence(m, first_order);
    lemma_fanout_independence(m, second_order);
    let a = apply_outcomes(m, first_order);
    let b = apply_outcomes(m, second_order);
    assert forall|k: AccountView| a.dom().contains(k) <==> b.dom().contains(k) by {
        lemma_same_outcome(m, first_order, second_order, k);
    }
    assert forall|k: AccountView| a.dom().contains(k) implies a[k] == b[k] by {
        lemma_same_outcome(m, first_order, second_order, k);
    }
    assert(a =~= b);
}

/// Helper: under the conditions of [`lemma_fanout_order_irrelevant`], both
/// orders treat any one account alike.
proof fn lemma_same_outcome(
    m: Map<AccountView, Seq<CalendarView>>,
    first_order: Seq<FetchOutcome>,
    second_order: Seq<FetchOutcome>,
    k: AccountView,
)
    requires
        distinct_accounts(first_order),
        distinct_accounts(second_order),
        forall|p: FetchOutcome| first_order.contains(p) <==> second_order.contains(p),
    ensures
        (apply_outcomes(m, first_order).dom().contains(k) <==> apply_outcomes(
            m,
            second_order,
        ).dom().contains(k)),
        apply_outcomes(m, first_order).dom().contains(k) ==> apply_outcomes(m, first_order)[k]
            == apply_outcomes(m, second_order)[k],
{
    lemma_fanout_independence(m, first_order);
    lemma_fanout_independence(m, second_order);
    let a = apply_outcomes(m, first_order);
    let b = apply_outcomes(m, second_order);
    if exists|i: int| 0 <= i < first_order.len() && (#[trigger] first_order[i]).0 == k {
        let i = choose|i: int| 0 <= i < first_order.len() && (#[trigger] first_order[i]).0 == k;
        let p = first_order[i];
        assert(first_order.contains(p));
        assert(second_order.contains(p));
        let j = choose|j: int| 0 <= j < second_order.len() && second_order[j] == p;
        assert(second_order[j].0 == k);
        if p.1 is Some {
            assert(first_order[i].1 is Some);
            assert(a.dom().contains(first_order[i].0) && a[first_order[i].0]
                == first_order[i].1->0);
            assert(second_order[j].1 is Some);
            assert(b.dom().contains(second_order[j].0) && b[second_order[j].0]
                == second_order[j].1->0);
        } else {
            assert(first_order[i].1 is None);
            assert((a.dom().contains(first_order[i].0) <==> m.dom().contains(k)) && (
            m.dom().contains(k) ==> a[first_order[i].0] == m[k]));
            assert(second_order[j].1 is None);
            assert((b.dom().contains(second_order[j].0) <==> m.dom().contains(k)) && (
            m.dom().contains(k) ==> b[second_order[j].0] == m[k]));
        }
    } else {
        assert(forall|i: int| 0 <= i < first_order.len() ==> (#[trigger] first_order[i]).0 != k);
        assert forall|j: int| 0 <= j < second_order.len() implies (#[trigger] second_order[j]).0
            != k by {
            if second_order[j].0 == k {
                let p = second_order[j];
                assert(second_order.contains(p));
                assert(first_order.contains(p));
                let i = choose|i: int| 0 <= i < first_order.len() && first_order[i] == p;
                assert(first_order[i].0 == k);
            }
        }
        lemma_untouched_account(m, first_order, k);
        lemma_untouched_account(m, second_order, k);
    }
}

} // verus!
