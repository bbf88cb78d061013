use secret_auction::account::AccountId;
use secret_auction::auction::ledger::{BidLedger, HighestBid};

fn ledger_account(name: &str) -> AccountId {
    AccountId::new(name)
}

fn lead_of(ledger: &BidLedger) -> Option<(String, u128)> {
    ledger.highest_bid().map(|bid| (bid.bidder.as_str().to_string(), bid.amount))
}

#[test]
fn new_ledger_is_empty() {
    let ledger = BidLedger::new();
    assert_eq!(ledger.get(&ledger_account("alice")), None);
    assert_eq!(ledger.highest_bid(), None);
}

#[test]
fn record_bid_opens_an_entry_at_the_amount() {
    let mut ledger = BidLedger::new();
    let total = ledger.record_bid(&ledger_account("alice"), 50);
    assert_eq!(total, 50);
    assert_eq!(ledger.get(&ledger_account("alice")), Some(50));
    assert_eq!(ledger.get(&ledger_account("bob")), None);
}

#[test]
fn record_bid_adds_to_an_existing_entry() {
    let mut ledger = BidLedger::new();
    ledger.record_bid(&ledger_account("alice"), 50);
    ledger.record_bid(&ledger_account("bob"), 60);
    let total = ledger.record_bid(&ledger_account("alice"), 20);
    assert_eq!(total, 70);
    assert_eq!(ledger.get(&ledger_account("alice")), Some(70));
    assert_eq!(ledger.get(&ledger_account("bob")), Some(60));
}

#[test]
fn record_bid_reaches_the_largest_amount() {
    let mut ledger = BidLedger::new();
    ledger.record_bid(&ledger_account("alice"), u128::MAX - 1);
    let total = ledger.record_bid(&ledger_account("alice"), 1);
    assert_eq!(total, u128::MAX);
}

#[test]
fn record_bid_does_not_move_the_lead() {
    let mut ledger = BidLedger::new();
    ledger.record_bid(&ledger_account("alice"), 50);
    assert_eq!(ledger.highest_bid(), None);
}

#[test]
fn first_promotion_takes_the_lead() {
    let mut ledger = BidLedger::new();
    ledger.maybe_promote(&ledger_account("alice"), 50);
    assert_eq!(
        ledger.highest_bid(),
        Some(&HighestBid { bidder: ledger_account("alice"), amount: 50 })
    );
}

#[test]
fn greater_total_takes_the_lead() {
    let mut ledger = BidLedger::new();
    ledger.maybe_promote(&ledger_account("alice"), 50);
    ledger.maybe_promote(&ledger_account("bob"), 51);
    assert_eq!(lead_of(&ledger), Some(("bob".to_string(), 51)));
}

#[test]
fn equal_total_leaves_the_lead() {
    let mut ledger = BidLedger::new();
    ledger.maybe_promote(&ledger_account("alice"), 50);
    ledger.maybe_promote(&ledger_account("bob"), 50);
    assert_eq!(lead_of(&ledger), Some(("alice".to_string(), 50)));
}

#[test]
fn smaller_total_leaves_the_lead() {
    let mut ledger = BidLedger::new();
    ledger.maybe_promote(&ledger_account("alice"), 50);
    ledger.maybe_promote(&ledger_account("bob"), 49);
    assert_eq!(lead_of(&ledger), Some(("alice".to_string(), 50)));
}

#[test]
fn promotion_leaves_the_totals() {
    let mut ledger = BidLedger::new();
    ledger.record_bid(&ledger_account("alice"), 5);
    ledger.maybe_promote(&ledger_account("bob"), 9);
    assert_eq!(ledger.get(&ledger_account("alice")), Some(5));
    assert_eq!(ledger.get(&ledger_account("bob")), None);
}

#[test]
fn take_removes_and_returns_the_entry() {
    let mut ledger = BidLedger::new();
    ledger.record_bid(&ledger_account("alice"), 50);
    ledger.record_bid(&ledger_account("bob"), 60);
    ledger.record_bid(&ledger_account("carol"), 70);
    assert_eq!(ledger.take(&ledger_account("bob")), Some(60));
    assert_eq!(ledger.get(&ledger_account("bob")), None);
    assert_eq!(ledger.get(&ledger_account("alice")), Some(50));
    assert_eq!(ledger.get(&ledger_account("carol")), Some(70));
}

#[test]
fn take_without_an_entry_returns_none() {
    let mut ledger = BidLedger::new();
    ledger.record_bid(&ledger_account("alice"), 50);
    assert_eq!(ledger.take(&ledger_account("bob")), None);
    assert_eq!(ledger.get(&ledger_account("alice")), Some(50));
}

#[test]
fn take_twice_returns_none_the_second_time() {
    let mut ledger = BidLedger::new();
    ledger.record_bid(&ledger_account("alice"), 50);
    assert_eq!(ledger.take(&ledger_account("alice")), Some(50));
    assert_eq!(ledger.take(&ledger_account("alice")), None);
}

#[test]
fn take_leaves_the_lead() {
    let mut ledger = BidLedger::new();
    ledger.record_bid(&ledger_account("alice"), 50);
    ledger.maybe_promote(&ledger_account("alice"), 50);
    ledger.take(&ledger_account("alice"));
    assert_eq!(lead_of(&ledger), Some(("alice".to_string(), 50)));
}

#[test]
fn fresh_bid_after_take_starts_from_zero() {
    let mut ledger = BidLedger::new();
    ledger.record_bid(&ledger_account("alice"), 50);
    ledger.take(&ledger_account("alice"));
    assert_eq!(ledger.record_bid(&ledger_account("alice"), 7), 7);
}

#[test]
fn set_writes_and_overwrites() {
    let mut ledger = BidLedger::new();
    ledger.set(&ledger_account("alice"), 5);
    assert_eq!(ledger.get(&ledger_account("alice")), Some(5));
    ledger.set(&ledger_account("alice"), 0);
    assert_eq!(ledger.get(&ledger_account("alice")), Some(0));
    ledger.set(&ledger_account("bob"), 9);
    assert_eq!(ledger.get(&ledger_account("alice")), Some(0));
    assert_eq!(ledger.get(&ledger_account("bob")), Some(9));
}

#[test]
fn accounts_are_told_apart_by_their_whole_address() {
    let mut ledger = BidLedger::new();
    ledger.record_bid(&ledger_account("alice"), 1);
    ledger.record_bid(&ledger_account("alice2"), 2);
    ledger.record_bid(&ledger_account(""), 3);
    assert_eq!(ledger.get(&ledger_account("alice")), Some(1));
    assert_eq!(ledger.get(&ledger_account("alice2")), Some(2));
    assert_eq!(ledger.get(&ledger_account("")), Some(3));
    assert_eq!(ledger.get(&ledger_account("Alice")), None);
}

#[test]
fn account_equality_follows_the_address() {
    let alice = AccountId::new("alice");
    assert!(alice.same(&AccountId::new("alice")));
    assert!(!alice.same(&AccountId::new("bob")));
    assert_eq!(alice, alice.clone());
    assert_ne!(alice, AccountId::new("alic"));
    assert_eq!(alice.as_str(), "alice");
}

#[test]
fn set_highest_replaces_or_clears_the_lead() {
    let mut ledger = BidLedger::new();
    ledger.record_bid(&ledger_account("alice"), 5);
    ledger.set_highest(Some(HighestBid { bidder: ledger_account("bob"), amount: 9 }));
    assert_eq!(lead_of(&ledger), Some(("bob".to_string(), 9)));
    assert_eq!(ledger.get(&ledger_account("alice")), Some(5));
    assert_eq!(ledger.get(&ledger_account("bob")), None);
    ledger.set_highest(None);
    assert_eq!(ledger.highest_bid(), None);
    assert_eq!(ledger.get(&ledger_account("alice")), Some(5));
}
