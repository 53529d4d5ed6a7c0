//! The Aggregate Calendar Store: a mapping from account to its fetched
//! unified calendars.
//!
//! The store is mutated only by successful fetch completions, one entry per
//! account. Insertion order of accounts is not semantically significant but
//! stays stable for display: a later result for a known account overwrites
//! that account's entry in place (last write wins), a result for a new
//! account goes to the end.

use vstd::prelude::*;

use crate::models::{Account, AccountView, Calendar, CalendarView};

verus! {

/// One store entry at the mathematical level: an account and its calendars.
pub type StoreEntry = (AccountView, Seq<CalendarView>);

/// The account keys of the entries, in display order.
pub open spec fn store_keys(s: Seq<StoreEntry>) -> Seq<AccountView> {
    s.map_values(|p: StoreEntry| p.0)
}

/// No two entries for the same account.
pub open spec fn unique_keys(s: Seq<StoreEntry>) -> bool {
    forall|i: int, j: int| 0 <= i < j < s.len() ==> s[i].0 != s[j].0
}

/// The mapping the entries represent, ignoring display order.
pub open spec fn store_map(s: Seq<StoreEntry>) -> Map<AccountView, Seq<CalendarView>>
    decreases s.len(),
{
    if s.len() == 0 {
        Map::empty()
    } else {
        store_map(s.drop_last()).insert(s.last().0, s.last().1)
    }
}

/// An account is in the mapping's domain exactly when some entry carries it.
pub proof fn lemma_store_map_dom(s: Seq<StoreEntry>, k: AccountView)
    ensures
        store_map(s).dom().contains(k) <==> exists|i: int| 0 <= i < s.len() && s[i].0 == k,
    decreases s.len(),
{
    if s.len() > 0 {
        lemma_store_map_dom(s.drop_last(), k);
        if s.last().0 == k {
            assert(s[s.len() - 1].0 == k);
        } else if exists|i: int| 0 <= i < s.len() && s[i].0 == k {
            let i = choose|i: int| 0 <= i < s.len() && s[i].0 == k;
            assert(s.drop_last()[i].0 == k);
        }
    }
}

/// Appending an entry inserts its pair into the mapping.
pub proof fn lemma_store_map_push(s: Seq<StoreEntry>, p: StoreEntry)
    ensures
        store_map(s.push(p)) == store_map(s).insert(p.0, p.1),
{
    assert(s.push(p).drop_last() =~= s);
    assert(s.push(p).last() == p);
}

/// Overwriting the entry that carries a key inserts the new pair into the
/// mapping, provided keys are unique.
pub proof fn lemma_store_map_update(s: Seq<StoreEntry>, i: int, p: StoreEntry)
    requires
        0 <= i < s.len(),
        s[i].0 == p.0,
        unique_keys(s),
    ensures
        store_map(s.update(i, p)) == store_map(s).insert(p.0, p.1),
    decreases s.len(),
{
    if i == s.len() - 1 {
        assert(s.update(i, p).drop_last() =~= s.drop_last());
        assert(s.update(i, p).last() == p);
        assert(store_map(s.drop_last()).insert(s.last().0, s.last().1).insert(p.0, p.1)
            =~= store_map(s.drop_last()).insert(p.0, p.1));
    } else {
        let d = s.drop_last();
        assert(unique_keys(d));
        assert(d[i] == s[i]);
        lemma_store_map_update(d, i, p);
        assert(s.update(i, p).drop_last() =~= d.update(i, p));
        assert(s.update(i, p).last() == s.last());
        assert(s.last().0 != p.0);
        assert(store_map(d).insert(p.0, p.1).insert(s.last().0, s.last().1) =~= store_map(
            d,
        ).insert(s.last().0, s.last().1).insert(p.0, p.1));
    }
}

/// The value the mapping carries for an entry's key is that entry's
/// calendars, provided keys are unique.
pub proof fn lemma_store_map_at(s: Seq<StoreEntry>, i: int)
    requires
        0 <= i < s.len(),
        unique_keys(s),
    ensures
        store_map(s).dom().contains(s[i].0),
        store_map(s)[s[i].0] == s[i].1,
    decreases s.len(),
{
    if i == s.len() - 1 {
    } else {
        let d = s.drop_last();
        assert(unique_keys(d));
        assert(d[i] == s[i]);
        lemma_store_map_at(d, i);
        assert(s.last().0 != s[i].0);
    }
}

/// The Aggregate Calendar Store. See the module text for its semantics.
#[derive(Debug)]
pub struct CalendarStore {
    entries: Vec<(Account, Vec<Calendar>)>,
}

impl View for CalendarStore {
    type V = Seq<StoreEntry>;

    closed spec fn view(&self) -> Seq<StoreEntry> {
        Seq::new(self.entries@.len(), |i: int| (self.entries@[i].0@, self.entries@[i].1.deep_view()))
    }
}

impl CalendarStore {
    /// Well-formedness: one entry per account. Established by [`Self::new`]
    /// and preserved by every method.
    pub open spec fn wf(self) -> bool {
        unique_keys(self@)
    }

    /// An empty store: the state at application launch.
    pub fn new() -> (s: CalendarStore)
        ensures
            s@ == Seq::<StoreEntry>::empty(),
            s.wf(),
    {
        let s = CalendarStore { entries: Vec::new() };
        proof {
            assert(s@ =~= Seq::<StoreEntry>::empty());
        }
        s
    }

    /// How many accounts have calendars in the store.
    pub fn len(&self) -> (n: usize)
        ensures
            n == self@.len(),
    {
        self.entries.len()
    }

    /// Folds one account's successful fetch result into the store: the
    /// mapping gains (or overwrites) that account's calendars, and display
    /// order is kept — a known account keeps its position, a new account
    /// goes to the end.
    pub fn merge(&mut self, account: Account, calendars: Vec<Calendar>)
        requires
            old(self).wf(),
        ensures
            final(self).wf(),
            store_map(final(self)@) == store_map(old(self)@).insert(
                account@,
                calendars.deep_view(),
            ),
            store_map(old(self)@).dom().contains(account@) ==> store_keys(final(self)@)
                == store_keys(old(self)@),
            !store_map(old(self)@).dom().contains(account@) ==> store_keys(final(self)@)
                == store_keys(old(self)@).push(account@),
    {
        proof {
            lemma_store_map_dom(self@, account@);
        }
        let ghost pre = self@;
        let n = self.entries.len();
        let mut i: usize = 0;
        while i < n
            invariant
                n == self.entries@.len(),
                i <= n,
                self@ == pre,
                pre == old(self)@,
                unique_keys(pre),
                forall|j: int| 0 <= j < i ==> #[trigger] pre[j].0 != account@,
            decreases n - i,
        {
            if self.entries[i].0.key_eq(&account) {
                proof {
                    assert(pre[i as int].0 == account@);
                }
                let ghost p = (account@, calendars.deep_view());
                self.entries[i] = (account, calendars);
                proof {
                    lemma_store_map_dom(pre, account@);
                    assert(self@ =~= pre.update(i as int, p));
                    lemma_store_map_update(pre, i as int, p);
                    assert(store_keys(self@) =~= store_keys(pre));
                }
                return ;
            }
            i = i + 1;
        }
        proof {
            assert(forall|j: int| 0 <= j < pre.len() ==> #[trigger] pre[j].0 != account@);
        }
        let ghost p = (account@, calendars.deep_view());
        self.entries.push((account, calendars));
        proof {
            assert(self@ =~= pre.push(p));
            lemma_store_map_push(pre, p);
            assert(store_keys(self@) =~= store_keys(pre).push(p.0));
        }
    }

    /// Whether the store already holds calendars for an account.
    pub fn contains(&self, account: &Account) -> (r: bool)
        requires
            self.wf(),
        ensures
            r == store_map(self@).dom().contains(account@),
    {
        match self.get(account) {
            Some(_) => true,
            None => false,
        }
    }

    /// The calendars stored for an account, if any fetch for it succeeded.
    pub fn get(&self, account: &Account) -> (r: Option<&Vec<Calendar>>)
        requires
            self.wf(),
        ensures
            match r {
                Some(cals) => store_map(self@).dom().contains(account@) && cals.deep_view()
                    == store_map(self@)[account@],
                None => !store_map(self@).dom().contains(account@),
            },
    {
        proof {
            lemma_store_map_dom(self@, account@);
        }
        let n = self.entries.len();
        let mut i: usize = 0;
        while i < n
            invariant
                n == self.entries@.len(),
                i <= n,
                forall|j: int| 0 <= j < i ==> #[trigger] self@[j].0 != account@,
                unique_keys(self@),
            decreases n - i,
        {
            if self.entries[i].0.key_eq(account) {
                proof {
                    lemma_store_map_at(self@, i as int);
                }
                return Some(&self.entries[i].1);
            }
            i = i + 1;
        }
        None
    }

    /// The accounts with stored calendars, in display order.
    pub fn accounts(&self) -> (r: Vec<Account>)
        ensures
            r.deep_view() == store_keys(self@),
    {
        let mut r: Vec<Account> = Vec::new();
        let n = self.entries.len();
        let mut i: usize = 0;
        while i < n
            invariant
                n == self.entries@.len(),
                i <= n,
                r@.len() == i,
                forall|j: int| 0 <= j < i ==> #[trigger] r@[j]@ == self@[j].0,
            decreases n - i,
        {
            r.push(self.entries[i].0.clone());
            i = i + 1;
        }
        proof {
            assert(r.deep_view() =~= store_keys(self@));
        }
        r
    }
}

/// Law: a later successful fetch for an account fully overwrites the earlier
/// result — after merging `first` and then `second` for the same account,
/// the store maps that account to exactly `second`, and to nothing of
/// `first`.
pub proof fn lemma_last_write_wins(
    m: Map<AccountView, Seq<CalendarView>>,
    account: AccountView,
    first: Seq<CalendarView>,
    second: Seq<CalendarView>,
)
    ensures
        m.insert(account, first).insert(account, second) == m.insert(account, second),
        m.insert(account, first).insert(account, second)[account] == second,
{
    assert(m.insert(account, first).insert(account, second) =~= m.insert(account, second));
}

/// Law: merges for distinct accounts commute — the aggregate mapping does
/// not depend on the order in which two different accounts' fetches
/// complete.
pub proof fn lemma_merges_commute(
    m: Map<AccountView, Seq<CalendarView>>,
    account_a: AccountView,
    cals_a: Seq<CalendarView>,
    account_b: AccountView,
    cals_b: Seq<CalendarView>,
)
    requires
        account_a != account_b,
    ensures
        m.insert(account_a, cals_a).insert(account_b, cals_b) == m.insert(account_b, cals_b)
            .insert(account_a, cals_a),
{
    assert(m.insert(account_a, cals_a).insert(account_b, cals_b) =~= m.insert(
        account_b,
        cals_b,
    ).insert(account_a, cals_a));
}

} // verus!
