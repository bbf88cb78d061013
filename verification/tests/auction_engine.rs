use secret_auction::account::AccountId;
use secret_auction::auction::calls::{AuctionAnswer, AuctionMsg, AuctionQuery};
use secret_auction::auction::engine::{offered_amount, AuctionInfo, SettlementEngine, BID_DENOM};
use secret_auction::auction::error::AuctionError;
use secret_auction::auction::ledger::HighestBid;
use secret_auction::host::{BlockInfo, Coin, Env, MessageInfo};
use secret_auction::response::{Response, Transfer};

const END: u64 = 1000;

fn who(name: &str) -> AccountId {
    AccountId::new(name)
}

fn uscrt(amount: u128) -> Vec<Coin> {
    vec![Coin { denom: "uscrt".to_string(), amount }]
}

fn at_time(time: u64) -> Env {
    Env { block: BlockInfo { height: 1, time } }
}

fn call_from(sender: &str, funds: Vec<Coin>) -> MessageInfo {
    MessageInfo { sender: who(sender), funds }
}

fn running(minimum_bid: u128) -> SettlementEngine {
    let mut engine = SettlementEngine::instantiate(Some(who("admin")), who("deployer"));
    engine.lifecycle.configure(&who("admin"), "s3cret".to_string(), minimum_bid, END).unwrap();
    engine.lifecycle.start(&who("admin")).unwrap();
    engine
}

fn lead(engine: &SettlementEngine) -> Option<(String, u128)> {
    engine.ledger.highest_bid().map(|bid| (bid.bidder.as_str().to_string(), bid.amount))
}

#[test]
fn bid_denomination_is_uscrt() {
    assert_eq!(BID_DENOM, "uscrt");
}

#[test]
fn instantiate_takes_the_named_admin() {
    let engine = SettlementEngine::instantiate(Some(who("admin")), who("deployer"));
    assert_eq!(engine.lifecycle.admin, who("admin"));
    assert_eq!(engine.lifecycle.config, None);
    assert!(!engine.lifecycle.flags.started);
    assert!(!engine.lifecycle.flags.completed);
    assert_eq!(engine.ledger.highest_bid(), None);
}

#[test]
fn instantiate_defaults_to_the_caller() {
    let engine = SettlementEngine::instantiate(None, who("deployer"));
    assert_eq!(engine.lifecycle.admin, who("deployer"));
}

#[test]
fn offered_amount_takes_one_coin_of_the_denomination() {
    assert_eq!(offered_amount(&uscrt(5)), Some(5));
    assert_eq!(offered_amount(&uscrt(u128::MAX)), Some(u128::MAX));
}

#[test]
fn offered_amount_refuses_everything_else() {
    assert_eq!(offered_amount(&vec![]), None);
    assert_eq!(offered_amount(&uscrt(0)), None);
    assert_eq!(offered_amount(&vec![Coin { denom: "uatom".to_string(), amount: 5 }]), None);
    assert_eq!(offered_amount(&vec![Coin { denom: "USCRT".to_string(), amount: 5 }]), None);
    assert_eq!(offered_amount(&vec![Coin { denom: "".to_string(), amount: 5 }]), None);
    let two = vec![
        Coin { denom: "uscrt".to_string(), amount: 5 },
        Coin { denom: "uscrt".to_string(), amount: 6 },
    ];
    assert_eq!(offered_amount(&two), None);
    let mixed = vec![
        Coin { denom: "uscrt".to_string(), amount: 5 },
        Coin { denom: "uatom".to_string(), amount: 6 },
    ];
    assert_eq!(offered_amount(&mixed), None);
}

#[test]
fn bid_before_start_fails() {
    let mut engine = SettlementEngine::instantiate(None, who("admin"));
    assert_eq!(engine.place_bid(&who("alice"), &uscrt(5), 10), Err(AuctionError::NotStarted));
    engine.lifecycle.configure(&who("admin"), "s3cret".to_string(), 100, END).unwrap();
    assert_eq!(engine.place_bid(&who("alice"), &uscrt(5), 10), Err(AuctionError::NotStarted));
    assert_eq!(engine.ledger.get(&who("alice")), None);
}

#[test]
fn bid_after_end_fails() {
    let mut engine = running(100);
    assert_eq!(engine.place_bid(&who("alice"), &uscrt(5), END + 1), Err(AuctionError::AuctionEnded));
    assert_eq!(engine.ledger.get(&who("alice")), None);
    assert_eq!(engine.ledger.highest_bid(), None);
}

#[test]
fn bid_at_the_end_time_is_taken() {
    let mut engine = running(100);
    assert_eq!(engine.place_bid(&who("alice"), &uscrt(5), END), Ok(()));
    assert_eq!(engine.ledger.get(&who("alice")), Some(5));
}

#[test]
fn bid_with_invalid_funds_fails() {
    let mut engine = running(100);
    assert_eq!(engine.place_bid(&who("alice"), &vec![], 10), Err(AuctionError::InvalidFunds));
    assert_eq!(engine.place_bid(&who("alice"), &uscrt(0), 10), Err(AuctionError::InvalidFunds));
    let other = vec![Coin { denom: "uatom".to_string(), amount: 5 }];
    assert_eq!(engine.place_bid(&who("alice"), &other, 10), Err(AuctionError::InvalidFunds));
    assert_eq!(engine.ledger.get(&who("alice")), None);
    assert_eq!(engine.ledger.highest_bid(), None);
}

#[test]
fn bid_by_the_admin_fails() {
    let mut engine = running(100);
    assert_eq!(engine.place_bid(&who("admin"), &uscrt(5), 10), Err(AuctionError::AdminCannotBid));
    assert_eq!(engine.ledger.get(&who("admin")), None);
    assert_eq!(engine.ledger.highest_bid(), None);
}

#[test]
fn bid_errors_come_in_order() {
    let mut idle = SettlementEngine::instantiate(None, who("admin"));
    assert_eq!(idle.place_bid(&who("admin"), &vec![], 10), Err(AuctionError::NotStarted));
    let mut engine = running(100);
    assert_eq!(engine.place_bid(&who("admin"), &vec![], END + 1), Err(AuctionError::AuctionEnded));
    assert_eq!(engine.place_bid(&who("admin"), &vec![], 10), Err(AuctionError::InvalidFunds));
}

#[test]
fn bids_add_up_per_account() {
    let mut engine = running(100);
    engine.place_bid(&who("alice"), &uscrt(50), 10).unwrap();
    assert_eq!(lead(&engine), Some(("alice".to_string(), 50)));
    engine.place_bid(&who("bob"), &uscrt(60), 11).unwrap();
    assert_eq!(lead(&engine), Some(("bob".to_string(), 60)));
    engine.place_bid(&who("alice"), &uscrt(20), 12).unwrap();
    assert_eq!(lead(&engine), Some(("alice".to_string(), 70)));
    assert_eq!(engine.ledger.get(&who("alice")), Some(70));
    assert_eq!(engine.ledger.get(&who("bob")), Some(60));
}

#[test]
fn tie_keeps_the_first_bidder_in_front() {
    let mut engine = running(100);
    engine.place_bid(&who("alice"), &uscrt(50), 10).unwrap();
    engine.place_bid(&who("bob"), &uscrt(50), 11).unwrap();
    assert_eq!(lead(&engine), Some(("alice".to_string(), 50)));
    engine.place_bid(&who("carol"), &uscrt(20), 12).unwrap();
    engine.place_bid(&who("carol"), &uscrt(30), 13).unwrap();
    assert_eq!(lead(&engine), Some(("alice".to_string(), 50)));
    assert_eq!(engine.ledger.get(&who("carol")), Some(50));
}

#[test]
fn highest_bid_is_the_maximum_and_never_falls() {
    let mut engine = running(100);
    let bids: [(&str, u128); 6] =
        [("alice", 3), ("bob", 9), ("alice", 5), ("carol", 9), ("bob", 1), ("alice", 2)];
    let mut before: u128 = 0;
    for (name, amount) in bids {
        engine.place_bid(&who(name), &uscrt(amount), 10).unwrap();
        let totals = [
            engine.ledger.get(&who("alice")).unwrap_or(0),
            engine.ledger.get(&who("bob")).unwrap_or(0),
            engine.ledger.get(&who("carol")).unwrap_or(0),
        ];
        let highest = engine.ledger.highest_bid().unwrap().amount;
        assert_eq!(highest, *totals.iter().max().unwrap());
        assert!(highest >= before);
        before = highest;
    }
    assert_eq!(lead(&engine), Some(("bob".to_string(), 10)));
}

#[test]
fn bid_fits_tells_when_the_total_would_overflow() {
    let mut engine = running(100);
    engine.place_bid(&who("alice"), &uscrt(u128::MAX - 5), 10).unwrap();
    assert!(engine.bid_fits(&who("alice"), &uscrt(5)));
    assert!(!engine.bid_fits(&who("alice"), &uscrt(6)));
    assert!(engine.bid_fits(&who("bob"), &uscrt(u128::MAX)));
    assert!(engine.bid_fits(&who("alice"), &vec![]));
    engine.place_bid(&who("alice"), &uscrt(5), 10).unwrap();
    assert_eq!(engine.ledger.get(&who("alice")), Some(u128::MAX));
}

#[test]
fn withdraw_before_start_fails() {
    let mut engine = SettlementEngine::instantiate(None, who("admin"));
    assert_eq!(engine.withdraw(&who("alice"), 5000), Err(AuctionError::NotStarted));
    assert_eq!(engine.withdraw(&who("admin"), 5000), Err(AuctionError::NotStarted));
}

#[test]
fn withdraw_before_end_fails() {
    let mut engine = running(10);
    engine.place_bid(&who("alice"), &uscrt(50), 10).unwrap();
    engine.place_bid(&who("bob"), &uscrt(60), 10).unwrap();
    assert_eq!(engine.withdraw(&who("alice"), END), Err(AuctionError::AuctionNotEnded));
    assert_eq!(engine.withdraw(&who("bob"), END), Err(AuctionError::AuctionNotEnded));
    assert_eq!(engine.withdraw(&who("admin"), END), Err(AuctionError::AuctionNotEnded));
    assert_eq!(engine.ledger.get(&who("alice")), Some(50));
    assert!(!engine.lifecycle.flags.completed);
}

#[test]
fn loser_is_refunded_exactly_once() {
    let mut engine = running(10);
    engine.place_bid(&who("alice"), &uscrt(20), 10).unwrap();
    engine.place_bid(&who("alice"), &uscrt(30), 11).unwrap();
    engine.place_bid(&who("bob"), &uscrt(60), 12).unwrap();
    assert_eq!(
        engine.withdraw(&who("alice"), END + 1),
        Ok(Transfer { to: who("alice"), amount: 50 })
    );
    assert_eq!(engine.ledger.get(&who("alice")), None);
    assert_eq!(engine.withdraw(&who("alice"), END + 1), Err(AuctionError::NothingToWithdraw));
    assert_eq!(engine.withdraw(&who("alice"), END + 500), Err(AuctionError::NothingToWithdraw));
    assert_eq!(lead(&engine), Some(("bob".to_string(), 60)));
    assert_eq!(engine.ledger.get(&who("bob")), Some(60));
}

#[test]
fn loser_is_refunded_whether_or_not_the_reserve_is_met() {
    let mut below = running(1000);
    below.place_bid(&who("alice"), &uscrt(50), 10).unwrap();
    below.place_bid(&who("bob"), &uscrt(60), 12).unwrap();
    assert_eq!(below.withdraw(&who("alice"), END + 1), Ok(Transfer { to: who("alice"), amount: 50 }));
    let mut above = running(1);
    above.place_bid(&who("alice"), &uscrt(50), 10).unwrap();
    above.place_bid(&who("bob"), &uscrt(60), 12).unwrap();
    assert_eq!(above.withdraw(&who("alice"), END + 1), Ok(Transfer { to: who("alice"), amount: 50 }));
}

#[test]
fn stranger_has_nothing_to_withdraw() {
    let mut engine = running(10);
    engine.place_bid(&who("bob"), &uscrt(60), 12).unwrap();
    assert_eq!(engine.withdraw(&who("mallory"), END + 1), Err(AuctionError::NothingToWithdraw));
    let mut empty = running(10);
    assert_eq!(empty.withdraw(&who("mallory"), END + 1), Err(AuctionError::NothingToWithdraw));
}

#[test]
fn empty_entry_has_nothing_to_withdraw() {
    let mut engine = running(10);
    engine.place_bid(&who("bob"), &uscrt(60), 12).unwrap();
    engine.ledger.set(&who("alice"), 0);
    assert_eq!(engine.withdraw(&who("alice"), END + 1), Err(AuctionError::NothingToWithdraw));
    assert_eq!(engine.ledger.get(&who("alice")), Some(0));
}

#[test]
fn winner_never_withdraws() {
    let mut engine = running(10);
    engine.place_bid(&who("alice"), &uscrt(50), 10).unwrap();
    engine.place_bid(&who("bob"), &uscrt(60), 12).unwrap();
    assert_eq!(engine.withdraw(&who("bob"), END + 1), Err(AuctionError::CannotWithdrawAsWinner));
    engine.withdraw(&who("admin"), END + 2).unwrap();
    assert_eq!(engine.withdraw(&who("bob"), END + 3), Err(AuctionError::CannotWithdrawAsWinner));
    engine.withdraw(&who("alice"), END + 4).unwrap();
    assert_eq!(engine.withdraw(&who("bob"), u64::MAX), Err(AuctionError::CannotWithdrawAsWinner));
    assert_eq!(engine.ledger.get(&who("bob")), Some(60));
}

#[test]
fn admin_settles_once_at_or_above_the_reserve() {
    let mut engine = running(60);
    engine.place_bid(&who("alice"), &uscrt(50), 10).unwrap();
    engine.place_bid(&who("bob"), &uscrt(60), 12).unwrap();
    assert_eq!(
        engine.withdraw(&who("admin"), END + 1),
        Ok(Transfer { to: who("admin"), amount: 60 })
    );
    assert!(engine.lifecycle.flags.completed);
    assert_eq!(engine.withdraw(&who("admin"), END + 1), Err(AuctionError::AlreadySettled));
    assert_eq!(engine.withdraw(&who("admin"), END + 9), Err(AuctionError::AlreadySettled));
    assert!(engine.lifecycle.flags.completed);
    assert_eq!(engine.ledger.get(&who("bob")), Some(60));
    assert_eq!(engine.ledger.get(&who("alice")), Some(50));
}

#[test]
fn admin_cannot_settle_below_the_reserve() {
    let mut engine = running(61);
    engine.place_bid(&who("bob"), &uscrt(60), 12).unwrap();
    assert_eq!(engine.withdraw(&who("admin"), END + 1), Err(AuctionError::ReserveNotMet));
    assert!(!engine.lifecycle.flags.completed);
}

#[test]
fn admin_cannot_settle_without_a_bid() {
    let mut engine = running(0);
    assert_eq!(engine.withdraw(&who("admin"), END + 1), Err(AuctionError::ReserveNotMet));
    assert!(!engine.lifecycle.flags.completed);
    assert!(!engine.reserve_met());
}

#[test]
fn reserve_met_compares_the_highest_bid_with_the_minimum() {
    let mut engine = running(60);
    assert!(!engine.reserve_met());
    engine.place_bid(&who("bob"), &uscrt(59), 12).unwrap();
    assert!(!engine.reserve_met());
    engine.place_bid(&who("bob"), &uscrt(1), 12).unwrap();
    assert!(engine.reserve_met());
}

#[test]
fn leads_names_the_highest_bidder_alone() {
    let mut engine = running(60);
    assert!(!engine.leads(&who("bob")));
    engine.place_bid(&who("bob"), &uscrt(59), 12).unwrap();
    assert!(engine.leads(&who("bob")));
    assert!(!engine.leads(&who("alice")));
}

#[test]
fn auction_info_hides_the_configuration_until_started() {
    let mut engine = SettlementEngine::instantiate(None, who("admin"));
    let hidden = AuctionInfo { started: false, minimum_bid: None, end_time: None };
    assert_eq!(engine.auction_info(), hidden);
    engine.lifecycle.configure(&who("admin"), "s3cret".to_string(), 100, END).unwrap();
    assert_eq!(engine.auction_info(), hidden);
    engine.lifecycle.start(&who("admin")).unwrap();
    assert_eq!(
        engine.auction_info(),
        AuctionInfo { started: true, minimum_bid: Some(100), end_time: Some(END) }
    );
}

#[test]
fn auction_info_repeats_without_a_change_between() {
    let mut engine = running(100);
    engine.place_bid(&who("bob"), &uscrt(59), 12).unwrap();
    let first = engine.auction_info();
    let second = engine.auction_info();
    let third = engine.query(&at_time(END + 5), AuctionQuery::AuctionInfo);
    assert_eq!(first, second);
    assert_eq!(
        third,
        Ok(AuctionAnswer::AuctionInfo {
            started: first.started,
            minimum_bid: first.minimum_bid,
            end_time: first.end_time,
        })
    );
    assert_eq!(engine.query(&at_time(END + 5), AuctionQuery::AuctionInfo), third);
}

#[test]
fn failed_calls_leave_the_public_information() {
    let mut engine = running(100);
    let before = engine.auction_info();
    let _ = engine.place_bid(&who("admin"), &uscrt(5), 10);
    let _ = engine.withdraw(&who("alice"), 10);
    let _ = engine.lifecycle.start(&who("admin"));
    let _ = engine.lifecycle.configure(&who("admin"), "x".to_string(), 1, 2);
    assert_eq!(engine.auction_info(), before);
}

#[test]
fn secret_goes_to_the_winner_after_the_end_with_the_reserve_met() {
    let mut engine = running(50);
    engine.place_bid(&who("alice"), &uscrt(70), 10).unwrap();
    engine.place_bid(&who("bob"), &uscrt(60), 12).unwrap();
    assert_eq!(engine.reveal_secret(&who("alice"), END + 1), Ok("s3cret".to_string()));
    assert_eq!(engine.reveal_secret(&who("alice"), END + 1), Ok("s3cret".to_string()));
    assert_eq!(engine.reveal_secret(&who("bob"), END + 1), Err(AuctionError::NotWinner));
    assert_eq!(engine.reveal_secret(&who("admin"), END + 1), Err(AuctionError::NotWinner));
}

#[test]
fn secret_is_withheld_until_the_end() {
    let mut engine = running(50);
    engine.place_bid(&who("alice"), &uscrt(70), 10).unwrap();
    assert_eq!(engine.reveal_secret(&who("alice"), END), Err(AuctionError::AuctionNotEnded));
    let idle = SettlementEngine::instantiate(None, who("admin"));
    assert_eq!(idle.reveal_secret(&who("alice"), END + 1), Err(AuctionError::NotStarted));
}

#[test]
fn secret_is_withheld_from_everyone_below_the_reserve() {
    let mut engine = running(71);
    engine.place_bid(&who("alice"), &uscrt(70), 10).unwrap();
    engine.place_bid(&who("bob"), &uscrt(60), 12).unwrap();
    assert_eq!(engine.reveal_secret(&who("alice"), END + 1), Err(AuctionError::Unauthorized));
    assert_eq!(engine.reveal_secret(&who("bob"), END + 1), Err(AuctionError::Unauthorized));
    assert_eq!(engine.reveal_secret(&who("mallory"), END + 1), Err(AuctionError::Unauthorized));
    let empty = running(0);
    assert_eq!(empty.reveal_secret(&who("alice"), END + 1), Err(AuctionError::Unauthorized));
}

#[test]
fn secret_does_not_wait_for_settlement() {
    let mut engine = running(50);
    engine.place_bid(&who("alice"), &uscrt(70), 10).unwrap();
    assert!(!engine.lifecycle.flags.completed);
    assert_eq!(engine.reveal_secret(&who("alice"), END + 1), Ok("s3cret".to_string()));
}

#[test]
fn get_secret_passes_a_failed_verification_on() {
    let mut engine = running(50);
    engine.place_bid(&who("alice"), &uscrt(70), 10).unwrap();
    assert_eq!(
        engine.get_secret(Err("bad signature".to_string()), END + 1),
        Err(AuctionError::IdentityVerificationFailed("bad signature".to_string()))
    );
    assert_eq!(engine.get_secret(Ok(who("alice")), END + 1), Ok("s3cret".to_string()));
    assert_eq!(engine.get_secret(Ok(who("bob")), END + 1), Err(AuctionError::NotWinner));
    assert_eq!(engine.get_secret(Ok(who("alice")), END), Err(AuctionError::AuctionNotEnded));
}

#[test]
fn query_answers_by_the_block_time() {
    let mut engine = running(50);
    engine.place_bid(&who("alice"), &uscrt(70), 10).unwrap();
    assert_eq!(
        engine.query(&at_time(END + 1), AuctionQuery::GetSecret { identity: Ok(who("alice")) }),
        Ok(AuctionAnswer::GetSecret { secret: "s3cret".to_string() })
    );
    assert_eq!(
        engine.query(&at_time(END), AuctionQuery::GetSecret { identity: Ok(who("alice")) }),
        Err(AuctionError::AuctionNotEnded)
    );
    assert_eq!(
        engine.query(&at_time(END + 1), AuctionQuery::GetSecret { identity: Err("no".to_string()) }),
        Err(AuctionError::IdentityVerificationFailed("no".to_string()))
    );
}

#[test]
fn execute_runs_each_call() {
    let mut engine = SettlementEngine::instantiate(None, who("admin"));
    let set = AuctionMsg::SetAuction { secret: "s3cret".to_string(), minimum_bid: 50, end_time: END };
    assert_eq!(engine.execute(&at_time(1), &call_from("admin", vec![]), set), Ok(Response::new()));
    assert_eq!(
        engine.execute(&at_time(2), &call_from("admin", vec![]), AuctionMsg::StartAuction),
        Ok(Response::new())
    );
    assert_eq!(
        engine.execute(&at_time(3), &call_from("alice", uscrt(70)), AuctionMsg::Bid),
        Ok(Response::new())
    );
    assert_eq!(
        engine.execute(&at_time(4), &call_from("bob", uscrt(60)), AuctionMsg::Bid),
        Ok(Response::new())
    );
    assert_eq!(
        engine.ledger.highest_bid(),
        Some(&HighestBid { bidder: who("alice"), amount: 70 })
    );
    assert_eq!(
        engine.execute(&at_time(END + 1), &call_from("bob", vec![]), AuctionMsg::Withdraw),
        Ok(Response { messages: vec![Transfer { to: who("bob"), amount: 60 }] })
    );
    assert_eq!(
        engine.execute(&at_time(END + 1), &call_from("admin", vec![]), AuctionMsg::Withdraw),
        Ok(Response { messages: vec![Transfer { to: who("admin"), amount: 70 }] })
    );
}

#[test]
fn execute_passes_errors_on_and_changes_nothing() {
    let mut engine = running(50);
    let set = AuctionMsg::SetAuction { secret: "x".to_string(), minimum_bid: 1, end_time: 2 };
    assert_eq!(
        engine.execute(&at_time(1), &call_from("admin", vec![]), set),
        Err(AuctionError::AlreadyStarted)
    );
    assert_eq!(
        engine.execute(&at_time(1), &call_from("alice", vec![]), AuctionMsg::StartAuction),
        Err(AuctionError::Unauthorized)
    );
    assert_eq!(
        engine.execute(&at_time(1), &call_from("admin", uscrt(5)), AuctionMsg::Bid),
        Err(AuctionError::AdminCannotBid)
    );
    assert_eq!(
        engine.execute(&at_time(1), &call_from("alice", uscrt(5)), AuctionMsg::Withdraw),
        Err(AuctionError::AuctionNotEnded)
    );
    assert_eq!(engine.ledger.get(&who("alice")), None);
    assert_eq!(engine.ledger.highest_bid(), None);
    assert_eq!(
        engine.auction_info(),
        AuctionInfo { started: true, minimum_bid: Some(50), end_time: Some(END) }
    );
}

#[test]
fn admin_never_gets_an_entry() {
    let mut engine = SettlementEngine::instantiate(None, who("admin"));
    let _ = engine.execute(&at_time(1), &call_from("admin", uscrt(5)), AuctionMsg::Bid);
    let set = AuctionMsg::SetAuction { secret: "s3cret".to_string(), minimum_bid: 50, end_time: END };
    let _ = engine.execute(&at_time(1), &call_from("admin", uscrt(5)), set);
    let _ = engine.execute(&at_time(2), &call_from("admin", uscrt(5)), AuctionMsg::StartAuction);
    let _ = engine.execute(&at_time(3), &call_from("admin", uscrt(5)), AuctionMsg::Bid);
    let _ = engine.execute(&at_time(3), &call_from("alice", uscrt(60)), AuctionMsg::Bid);
    let _ = engine.execute(&at_time(END + 1), &call_from("admin", uscrt(5)), AuctionMsg::Bid);
    let _ = engine.execute(&at_time(END + 1), &call_from("admin", uscrt(5)), AuctionMsg::Withdraw);
    assert_eq!(engine.ledger.get(&who("admin")), None);
    assert!(engine.lifecycle.flags.completed);
}

#[test]
fn settlement_happens_at_most_once() {
    let mut engine = running(50);
    engine.place_bid(&who("alice"), &uscrt(70), 10).unwrap();
    let mut settlements = 0;
    for time in [10, END, END + 1, END + 2, END + 3, 5, END + 4] {
        let before = engine.lifecycle.flags.completed;
        let _ = engine.execute(&at_time(time), &call_from("admin", vec![]), AuctionMsg::Withdraw);
        let _ = engine.execute(&at_time(time), &call_from("alice", vec![]), AuctionMsg::Withdraw);
        if !before && engine.lifecycle.flags.completed {
            settlements += 1;
        }
        assert!(!before || engine.lifecycle.flags.completed);
    }
    assert_eq!(settlements, 1);
}

#[test]
fn winning_amount_is_the_highest_bid_at_or_above_the_reserve() {
    let mut engine = running(60);
    assert_eq!(engine.winning_amount(), None);
    engine.place_bid(&who("bob"), &uscrt(59), 12).unwrap();
    assert_eq!(engine.winning_amount(), None);
    engine.place_bid(&who("bob"), &uscrt(1), 12).unwrap();
    assert_eq!(engine.winning_amount(), Some(60));
    engine.place_bid(&who("alice"), &uscrt(75), 12).unwrap();
    assert_eq!(engine.winning_amount(), Some(75));
    let idle = SettlementEngine::instantiate(None, who("admin"));
    assert_eq!(idle.winning_amount(), None);
}

#[test]
fn escrow_is_what_was_bid_less_what_was_refunded() {
    let mut engine = running(10);
    let mut paid_in: u128 = 0;
    let mut paid_out: u128 = 0;
    for (name, amount) in [("alice", 3u128), ("bob", 9), ("alice", 5), ("carol", 4), ("bob", 1)] {
        engine.place_bid(&who(name), &uscrt(amount), 10).unwrap();
        paid_in += amount;
    }
    for name in ["alice", "bob", "carol", "alice", "admin", "admin", "carol"] {
        if let Ok(transfer) = engine.withdraw(&who(name), END + 1) {
            paid_out += transfer.amount;
        }
    }
    let held: u128 = ["alice", "bob", "carol"]
        .iter()
        .map(|name| engine.ledger.get(&who(name)).unwrap_or(0))
        .sum();
    assert_eq!(engine.ledger.get(&who("bob")), Some(10));
    assert_eq!(held, 10);
    assert_eq!(paid_in, 22);
    assert_eq!(paid_out, 8 + 4 + 10);
}

#[test]
fn a_call_touches_no_entry_but_the_senders() {
    let mut whole = running(10);
    whole.place_bid(&who("alice"), &uscrt(50), 10).unwrap();
    whole.place_bid(&who("bob"), &uscrt(60), 10).unwrap();
    whole.place_bid(&who("carol"), &uscrt(40), 10).unwrap();

    let mut slice = running(10);
    slice.ledger.set(&who("alice"), 50);
    slice.ledger.set_highest(Some(HighestBid { bidder: who("bob"), amount: 60 }));

    assert_eq!(
        whole.place_bid(&who("alice"), &uscrt(11), 10),
        slice.place_bid(&who("alice"), &uscrt(11), 10)
    );
    assert_eq!(whole.ledger.highest_bid(), slice.ledger.highest_bid());
    assert_eq!(whole.ledger.get(&who("alice")), slice.ledger.get(&who("alice")));
    assert_eq!(whole.withdraw(&who("alice"), END + 1), slice.withdraw(&who("alice"), END + 1));
    assert_eq!(whole.ledger.get(&who("carol")), Some(40));
    assert_eq!(whole.ledger.get(&who("bob")), Some(60));
}
