use secret_auction::account::AccountId;
use secret_auction::auction::calls::{AuctionAnswer, AuctionMsg, AuctionQuery};
use secret_auction::auction::engine::SettlementEngine;
use secret_auction::auction::error::AuctionError;
use secret_auction::auction::ledger::HighestBid;
use secret_auction::host::{BlockInfo, Coin, Env, MessageInfo};
use secret_auction::response::{Response, Transfer};

const T: u64 = 1_700_000_000;

fn party(name: &str) -> AccountId {
    AccountId::new(name)
}

fn when(time: u64) -> Env {
    Env { block: BlockInfo { height: 7, time } }
}

fn plain(sender: &str) -> MessageInfo {
    MessageInfo { sender: party(sender), funds: vec![] }
}

fn paying(sender: &str, amount: u128) -> MessageInfo {
    MessageInfo { sender: party(sender), funds: vec![Coin { denom: "uscrt".to_string(), amount }] }
}

fn after_the_three_bids(minimum_bid: u128) -> SettlementEngine {
    let mut engine = SettlementEngine::instantiate(None, party("admin"));
    let set = AuctionMsg::SetAuction { secret: "the secret".to_string(), minimum_bid, end_time: T };
    assert_eq!(engine.execute(&when(T - 100), &plain("admin"), set), Ok(Response::new()));
    assert_eq!(
        engine.execute(&when(T - 99), &plain("admin"), AuctionMsg::StartAuction),
        Ok(Response::new())
    );

    assert_eq!(engine.execute(&when(T - 50), &paying("A", 50), AuctionMsg::Bid), Ok(Response::new()));
    assert_eq!(engine.ledger.get(&party("A")), Some(50));
    assert_eq!(engine.ledger.highest_bid(), Some(&HighestBid { bidder: party("A"), amount: 50 }));

    assert_eq!(engine.execute(&when(T - 40), &paying("B", 60), AuctionMsg::Bid), Ok(Response::new()));
    assert_eq!(engine.ledger.get(&party("B")), Some(60));
    assert_eq!(engine.ledger.highest_bid(), Some(&HighestBid { bidder: party("B"), amount: 60 }));

    assert_eq!(engine.execute(&when(T - 30), &paying("A", 20), AuctionMsg::Bid), Ok(Response::new()));
    assert_eq!(engine.ledger.get(&party("A")), Some(70));
    assert_eq!(engine.ledger.highest_bid(), Some(&HighestBid { bidder: party("A"), amount: 70 }));
    engine
}

#[test]
fn reserve_not_met_leaves_the_highest_bid_locked() {
    let mut engine = after_the_three_bids(100);

    assert_eq!(
        engine.execute(&when(T + 1), &plain("admin"), AuctionMsg::Withdraw),
        Err(AuctionError::ReserveNotMet)
    );
    assert!(!engine.lifecycle.flags.completed);

    assert_eq!(
        engine.execute(&when(T + 2), &plain("B"), AuctionMsg::Withdraw),
        Ok(Response { messages: vec![Transfer { to: party("B"), amount: 60 }] })
    );
    assert_eq!(engine.ledger.get(&party("B")), None);

    // Known anomaly: below the reserve the highest bidder has no way to
    // get the escrowed amount back, and the admin cannot collect it.
    assert_eq!(
        engine.execute(&when(T + 3), &plain("A"), AuctionMsg::Withdraw),
        Err(AuctionError::CannotWithdrawAsWinner)
    );
    assert_eq!(engine.ledger.get(&party("A")), Some(70));
    assert_eq!(
        engine.execute(&when(u64::MAX), &plain("A"), AuctionMsg::Withdraw),
        Err(AuctionError::CannotWithdrawAsWinner)
    );
    assert_eq!(
        engine.execute(&when(u64::MAX), &plain("admin"), AuctionMsg::Withdraw),
        Err(AuctionError::ReserveNotMet)
    );
    assert_eq!(
        engine.query(&when(T + 4), AuctionQuery::GetSecret { identity: Ok(party("A")) }),
        Err(AuctionError::Unauthorized)
    );
}

#[test]
fn reserve_met_settles_once_and_discloses_to_the_winner() {
    let mut engine = after_the_three_bids(50);

    assert_eq!(
        engine.execute(&when(T + 1), &plain("admin"), AuctionMsg::Withdraw),
        Ok(Response { messages: vec![Transfer { to: party("admin"), amount: 70 }] })
    );
    assert!(engine.lifecycle.flags.completed);

    assert_eq!(
        engine.execute(&when(T + 2), &plain("admin"), AuctionMsg::Withdraw),
        Err(AuctionError::AlreadySettled)
    );
    assert!(engine.lifecycle.flags.completed);

    assert_eq!(
        engine.query(&when(T + 3), AuctionQuery::GetSecret { identity: Ok(party("A")) }),
        Ok(AuctionAnswer::GetSecret { secret: "the secret".to_string() })
    );
    assert_eq!(
        engine.query(&when(T + 3), AuctionQuery::GetSecret { identity: Ok(party("B")) }),
        Err(AuctionError::NotWinner)
    );
}

#[test]
fn time_at_the_end_is_still_inside_the_auction() {
    let mut engine = after_the_three_bids(50);
    assert_eq!(
        engine.execute(&when(T), &plain("admin"), AuctionMsg::Withdraw),
        Err(AuctionError::AuctionNotEnded)
    );
    assert_eq!(engine.execute(&when(T), &paying("B", 10), AuctionMsg::Bid), Ok(Response::new()));
    assert_eq!(engine.ledger.highest_bid(), Some(&HighestBid { bidder: party("A"), amount: 70 }));
    assert_eq!(engine.execute(&when(T), &paying("B", 1), AuctionMsg::Bid), Ok(Response::new()));
    assert_eq!(engine.ledger.highest_bid(), Some(&HighestBid { bidder: party("B"), amount: 71 }));
    assert_eq!(
        engine.execute(&when(T + 1), &paying("A", 5), AuctionMsg::Bid),
        Err(AuctionError::AuctionEnded)
    );
}
