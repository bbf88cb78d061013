//! The bid ledger: what each account has put in, and who leads.

use vstd::prelude::*;
use crate::account::AccountId;

verus! {

/// One account's cumulative contribution.
#[derive(Debug, PartialEq, Eq)]
pub struct LedgerEntry {
    pub account: AccountId,
    pub amount: u128,
}

/// The current highest cumulative bid and the account that made it.
#[derive(Debug, PartialEq, Eq)]
pub struct HighestBid {
    pub bidder: AccountId,
    pub amount: u128,
}

/// The highest bid as a mathematical value.
pub struct Lead {
    pub bidder: Seq<char>,
    pub amount: nat,
}

impl View for HighestBid {
    type V = Lead;

    open spec fn view(&self) -> Lead {
        Lead { bidder: self.bidder@, amount: self.amount as nat }
    }
}

/// The ledger as a mathematical value: a total for each account that has
/// one, and the lead if any bid was promoted.
pub struct LedgerView {
    pub totals: Map<Seq<char>, nat>,
    pub highest: Option<Lead>,
}

impl LedgerView {
    /// The ledger before any bid.
    pub open spec fn empty() -> LedgerView {
        LedgerView { totals: Map::empty(), highest: None }
    }

    /// What `account` has put in so far; 0 without an entry.
    pub open spec fn total_of(self, account: Seq<char>) -> nat {
        if self.totals.contains_key(account) {
            self.totals[account]
        } else {
            0
        }
    }

    /// The amount of the highest bid; 0 before the first.
    pub open spec fn highest_amount(self) -> nat {
        match self.highest {
            Some(lead) => lead.amount,
            None => 0,
        }
    }

    /// Whether `account` is the recorded highest bidder.
    pub open spec fn leads(self, account: Seq<char>) -> bool {
        self.highest is Some && self.highest->0.bidder == account
    }

    /// The ledger after `amount` is added to the total of `account`.
    pub open spec fn record_bid(self, account: Seq<char>, amount: nat) -> LedgerView {
        LedgerView {
            totals: self.totals.insert(account, self.total_of(account) + amount),
            highest: self.highest,
        }
    }

    /// The ledger after `account` has reached `total`: the lead changes
    /// hands only for a strictly greater total.
    pub open spec fn maybe_promote(self, account: Seq<char>, total: nat) -> LedgerView {
        if self.highest is None || total > self.highest->0.amount {
            LedgerView {
                totals: self.totals,
                highest: Some(Lead { bidder: account, amount: total }),
            }
        } else {
            self
        }
    }

    /// The ledger without the entry of `account`.
    pub open spec fn take(self, account: Seq<char>) -> LedgerView {
        LedgerView { totals: self.totals.remove(account), highest: self.highest }
    }

    /// The ledger after a whole bid: record, then promote.
    pub open spec fn bid(self, account: Seq<char>, amount: nat) -> LedgerView {
        self.record_bid(account, amount).maybe_promote(
            account,
            self.total_of(account) + amount,
        )
    }

    /// The lead is the maximum of the totals: without a lead there is no
    /// entry, and with one the leader's own total is the lead and no total
    /// is greater.
    pub open spec fn lead_is_max(self) -> bool {
        match self.highest {
            None => self.totals.dom() =~= Set::<Seq<char>>::empty(),
            Some(lead) => {
                &&& self.totals.contains_key(lead.bidder)
                &&& self.totals[lead.bidder] == lead.amount
                &&& forall|account: Seq<char>| #[trigger]
                    self.totals.contains_key(account) ==> self.totals[account] <= lead.amount
            },
        }
    }
}

/// No two entries are for the same account.
pub open spec fn distinct_accounts(entries: Seq<LedgerEntry>) -> bool {
    forall|i: int, j: int|
        0 <= i < j < entries.len() ==> (#[trigger] entries[i]).account@ != (
        #[trigger] entries[j]).account@
}

/// Whether entry `i` is the one for `account`.
pub open spec fn entry_for(entries: Seq<LedgerEntry>, account: Seq<char>, i: int) -> bool {
    0 <= i < entries.len() && entries[i].account@ == account
}

/// The totals that a list of entries stands for.
pub open spec fn totals_of(entries: Seq<LedgerEntry>) -> Map<Seq<char>, nat> {
    Map::new(
        |account: Seq<char>| exists|i: int| entry_for(entries, account, i),
        |account: Seq<char>|
            entries[choose|i: int| entry_for(entries, account, i)].amount as nat,
    )
}

proof fn lemma_entry(entries: Seq<LedgerEntry>, i: int)
    requires
        distinct_accounts(entries),
        0 <= i < entries.len(),
    ensures
        totals_of(entries).contains_key(entries[i].account@),
        totals_of(entries)[entries[i].account@] == entries[i].amount,
{
    let account = entries[i].account@;
    assert(entry_for(entries, account, i));
    let j = choose|j: int| entry_for(entries, account, j);
    assert(entry_for(entries, account, j));
    if j < i {
        assert(entries[j].account@ != entries[i].account@);
    } else if i < j {
        assert(entries[i].account@ != entries[j].account@);
    }
}

proof fn lemma_absent(entries: Seq<LedgerEntry>, account: Seq<char>)
    requires
        forall|i: int| 0 <= i < entries.len() ==> (#[trigger] entries[i]).account@ != account,
    ensures
        !totals_of(entries).contains_key(account),
{
    if totals_of(entries).contains_key(account) {
        let i = choose|i: int| entry_for(entries, account, i);
        assert(entry_for(entries, account, i));
        assert(entries[i].account@ != account);
    }
}

proof fn lemma_push(entries: Seq<LedgerEntry>, entry: LedgerEntry)
    requires
        distinct_accounts(entries),
        !totals_of(entries).contains_key(entry.account@),
    ensures
        distinct_accounts(entries.push(entry)),
        totals_of(entries.push(entry)) == totals_of(entries).insert(
            entry.account@,
            entry.amount as nat,
        ),
{
    let after = entries.push(entry);
    let n = entries.len() as int;
    assert forall|i: int, j: int| 0 <= i < j < after.len() implies (#[trigger] after[i]).account@
        != (#[trigger] after[j]).account@ by {
        if j == n {
            assert(after[i] == entries[i]);
            if entries[i].account@ == entry.account@ {
                assert(entry_for(entries, entry.account@, i));
            }
        } else {
            assert(after[i] == entries[i]);
            assert(after[j] == entries[j]);
        }
    }
    let expected = totals_of(entries).insert(entry.account@, entry.amount as nat);
    assert forall|account: Seq<char>| totals_of(after).contains_key(account) implies (
    #[trigger] expected.contains_key(account)) by {
        let i = choose|i: int| entry_for(after, account, i);
        assert(entry_for(after, account, i));
        if i < n {
            assert(entry_for(entries, account, i));
        }
    }
    assert forall|account: Seq<char>| #[trigger] expected.contains_key(account) implies (
    totals_of(after).contains_key(account) && totals_of(after)[account] == expected[account]) by {
        if account == entry.account@ {
            assert(after[n] == entry);
            lemma_entry(after, n);
        } else {
            let i = choose|i: int| entry_for(entries, account, i);
            assert(entry_for(entries, account, i));
            assert(after[i] == entries[i]);
            lemma_entry(entries, i);
            lemma_entry(after, i);
        }
    }
    assert(totals_of(after) =~= expected);
}

proof fn lemma_update(entries: Seq<LedgerEntry>, at: int, entry: LedgerEntry)
    requires
        distinct_accounts(entries),
        0 <= at < entries.len(),
        entry.account@ == entries[at].account@,
    ensures
        distinct_accounts(entries.update(at, entry)),
        totals_of(entries.update(at, entry)) == totals_of(entries).insert(
            entry.account@,
            entry.amount as nat,
        ),
{
    let after = entries.update(at, entry);
    assert forall|i: int, j: int| 0 <= i < j < after.len() implies (#[trigger] after[i]).account@
        != (#[trigger] after[j]).account@ by {
        assert(after[i].account@ == entries[i].account@);
        assert(after[j].account@ == entries[j].account@);
    }
    let expected = totals_of(entries).insert(entry.account@, entry.amount as nat);
    assert forall|account: Seq<char>| totals_of(after).contains_key(account) implies (
    #[trigger] expected.contains_key(account)) by {
        let i = choose|i: int| entry_for(after, account, i);
        assert(entry_for(after, account, i));
        assert(after[i].account@ == entries[i].account@);
        assert(entry_for(entries, account, i));
    }
    assert forall|account: Seq<char>| #[trigger] expected.contains_key(account) implies (
    totals_of(after).contains_key(account) && totals_of(after)[account] == expected[account]) by {
        if account == entry.account@ {
            lemma_entry(after, at);
        } else {
            let i = choose|i: int| entry_for(entries, account, i);
            assert(entry_for(entries, account, i));
            assert(after[i] == entries[i]);
            lemma_entry(entries, i);
            lemma_entry(after, i);
        }
    }
    assert(totals_of(after) =~= expected);
}

proof fn lemma_remove(entries: Seq<LedgerEntry>, at: int)
    requires
        distinct_accounts(entries),
        0 <= at < entries.len(),
    ensures
        distinct_accounts(entries.remove(at)),
        totals_of(entries.remove(at)) == totals_of(entries).remove(entries[at].account@),
{
    let after = entries.remove(at);
    let gone = entries[at].account@;
    assert forall|i: int| 0 <= i < after.len() implies #[trigger] after[i] == entries[if i < at {
        i
    } else {
        i + 1
    }] by {}
    assert forall|i: int, j: int| 0 <= i < j < after.len() implies (#[trigger] after[i]).account@
        != (#[trigger] after[j]).account@ by {
        let a = if i < at { i } else { i + 1 };
        let b = if j < at { j } else { j + 1 };
        assert(after[i] == entries[a]);
        assert(after[j] == entries[b]);
        assert(entries[a].account@ != entries[b].account@);
    }
    let expected = totals_of(entries).remove(gone);
    assert forall|account: Seq<char>| totals_of(after).contains_key(account) implies (
    #[trigger] expected.contains_key(account)) by {
        let i = choose|i: int| entry_for(after, account, i);
        assert(entry_for(after, account, i));
        let a = if i < at { i } else { i + 1 };
        assert(after[i] == entries[a]);
        assert(entry_for(entries, account, a));
        if a < at {
            assert(entries[a].account@ != entries[at].account@);
        } else {
            assert(entries[at].account@ != entries[a].account@);
        }
    }
    assert forall|account: Seq<char>| #[trigger] expected.contains_key(account) implies (
    totals_of(after).contains_key(account) && totals_of(after)[account] == expected[account]) by {
        let a = choose|i: int| entry_for(entries, account, i);
        assert(entry_for(entries, account, a));
        assert(a != at);
        let i = if a < at { a } else { a - 1 };
        assert(after[i] == entries[a]);
        lemma_entry(entries, a);
        lemma_entry(after, i);
    }
    assert(totals_of(after) =~= expected);
}

/// Per-account cumulative totals with the single current highest bid.
///
/// No account has two entries. The lead is kept beside the totals and is
/// moved by [`BidLedger::maybe_promote`] alone.
#[derive(Debug)]
pub struct BidLedger {
    entries: Vec<LedgerEntry>,
    highest: Option<HighestBid>,
}

impl View for BidLedger {
    type V = LedgerView;

    closed spec fn view(&self) -> LedgerView {
        LedgerView {
            totals: totals_of(self.entries@),
            highest: match self.highest {
                Some(lead) => Some(lead@),
                None => None,
            },
        }
    }
}

impl BidLedger {
    /// No account has two entries.
    pub closed spec fn wf(&self) -> bool {
        distinct_accounts(self.entries@)
    }

    /// A ledger without entries and without a lead.
    pub fn new() -> (ledger: BidLedger)
        ensures
            ledger.wf(),
            ledger@ == LedgerView::empty(),
    {
        let ledger = BidLedger { entries: Vec::new(), highest: None };
        proof {
            assert(ledger@.totals =~= Map::<Seq<char>, nat>::empty()) by {
                assert forall|account: Seq<char>| !totals_of(ledger.entries@).contains_key(
                    account,
                ) by {
                    lemma_absent(ledger.entries@, account);
                }
            }
        }
        ledger
    }

    /// Where the entry of `account` stands, if it has one.
    fn position(&self, account: &AccountId) -> (found: Option<usize>)
        ensures
            match found {
                Some(i) => entry_for(self.entries@, account@, i as int),
                None => !self@.totals.contains_key(account@),
            },
    {
        let mut i: usize = 0;
        while i < self.entries.len()
            invariant
                0 <= i <= self.entries.len(),
                forall|j: int| 0 <= j < i ==> (#[trigger] self.entries@[j]).account@ != account@,
            decreases self.entries.len() - i,
        {
            if self.entries[i].account.same(account) {
                return Some(i);
            }
            i += 1;
        }
        proof {
            lemma_absent(self.entries@, account@);
        }
        None
    }

    /// The total of `account`, if it has an entry.
    pub fn get(&self, account: &AccountId) -> (total: Option<u128>)
        requires
            self.wf(),
        ensures
            match total {
                Some(amount) => self@.totals.contains_key(account@) && self@.totals[account@]
                    == amount,
                None => !self@.totals.contains_key(account@),
            },
    {
        match self.position(account) {
            Some(i) => {
                proof {
                    lemma_entry(self.entries@, i as int);
                }
                Some(self.entries[i].amount)
            },
            None => None,
        }
    }

    /// The current lead, if any bid was promoted.
    pub fn highest_bid(&self) -> (lead: Option<&HighestBid>)
        ensures
            match lead {
                Some(bid) => self@.highest == Some(bid@),
                None => self@.highest is None,
            },
    {
        self.highest.as_ref()
    }

    /// Sets the total of `account` to `amount`, with or without an earlier
    /// entry.
    pub fn set(&mut self, account: &AccountId, amount: u128)
        requires
            old(self).wf(),
        ensures
            final(self).wf(),
            final(self)@.totals == old(self)@.totals.insert(account@, amount as nat),
            final(self)@.highest == old(self)@.highest,
    {
        let entry = LedgerEntry { account: account.clone(), amount };
        match self.position(account) {
            Some(i) => {
                proof {
                    lemma_update(self.entries@, i as int, entry);
                }
                self.entries.set(i, entry);
            },
            None => {
                proof {
                    lemma_push(self.entries@, entry);
                }
                self.entries.push(entry);
            },
        }
    }

    /// Puts `lead` in the place of the current lead, or clears it. The
    /// totals stay as they are.
    pub fn set_highest(&mut self, lead: Option<HighestBid>)
        ensures
            final(self).wf() == old(self).wf(),
            final(self)@.totals == old(self)@.totals,
            final(self)@.highest == match lead {
                Some(bid) => Some(bid@),
                None => None,
            },
    {
        self.highest = lead;
    }

    /// Adds `amount` to what `account` has put in, opening its entry if it
    /// has none, and returns the new cumulative total.
    pub fn record_bid(&mut self, account: &AccountId, amount: u128) -> (total: u128)
        requires
            old(self).wf(),
            amount > 0,
            old(self)@.total_of(account@) + amount <= u128::MAX,
        ensures
            final(self).wf(),
            total == old(self)@.total_of(account@) + amount,
            final(self)@ == old(self)@.record_bid(account@, amount as nat),
    {
        let before: u128 = match self.get(account) {
            Some(held) => held,
            None => 0,
        };
        let total: u128 = before + amount;
        self.set(account, total);
        total
    }

    /// Makes `account` the highest bidder at `total` if there is no lead
    /// yet or `total` is strictly greater than the lead; an equal total
    /// leaves the earlier bidder in front.
    pub fn maybe_promote(&mut self, account: &AccountId, total: u128)
        ensures
            final(self).wf() == old(self).wf(),
            final(self)@ == old(self)@.maybe_promote(account@, total as nat),
    {
        let promote = match &self.highest {
            Some(lead) => total > lead.amount,
            None => true,
        };
        if promote {
            self.highest = Some(HighestBid { bidder: account.clone(), amount: total });
        }
    }

    /// Removes the entry of `account` and returns its total; `None`, and no
    /// change, if it has no entry.
    pub fn take(&mut self, account: &AccountId) -> (taken: Option<u128>)
        requires
            old(self).wf(),
        ensures
            final(self).wf(),
            match taken {
                Some(amount) => old(self)@.totals.contains_key(account@) && old(
                    self,
                )@.totals[account@] == amount,
                None => !old(self)@.totals.contains_key(account@),
            },
            final(self)@ == old(self)@.take(account@),
    {
        match self.position(account) {
            Some(i) => {
                proof {
                    lemma_entry(self.entries@, i as int);
                    lemma_remove(self.entries@, i as int);
                }
                let entry = self.entries.remove(i);
                Some(entry.amount)
            },
            None => {
                assert(self@.totals.remove(account@) =~= self@.totals);
                None
            },
        }
    }
}

} // verus!
