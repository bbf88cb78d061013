//! The settlement engine: bidding, withdrawal and disclosure of the secret,
//! over a lifecycle and a bid ledger.

use vstd::prelude::*;
use vstd::string::StringExecFns;
use crate::account::AccountId;
use crate::auction::calls::{CallView, Step};
use crate::auction::error::AuctionError;
use crate::auction::laws::law_step_keeps_sound;
use crate::auction::ledger::{BidLedger, LedgerView};
use crate::auction::lifecycle::{AuctionLifecycle, LifecycleView};
use crate::host::Coin;
use crate::response::{Transfer, TransferView};

verus! {

/// The one denomination in which bids are taken.
pub const BID_DENOM: &'static str = "uscrt";

/// What anyone may know of the auction.
#[derive(Clone, Copy, Debug, PartialEq, Eq)]
pub struct AuctionInfo {
    pub started: bool,
    pub minimum_bid: Option<u128>,
    pub end_time: Option<u64>,
}

/// Public information as a mathematical value.
pub struct InfoView {
    pub started: bool,
    pub minimum_bid: Option<nat>,
    pub end_time: Option<nat>,
}

impl View for AuctionInfo {
    type V = InfoView;

    open spec fn view(&self) -> InfoView {
        InfoView {
            started: self.started,
            minimum_bid: match self.minimum_bid {
                Some(amount) => Some(amount as nat),
                None => None,
            },
            end_time: match self.end_time {
                Some(time) => Some(time as nat),
                None => None,
            },
        }
    }
}

/// The amount that the attached funds offer as a bid: they must be exactly
/// one coin, of the bid denomination, and not empty.
pub open spec fn offered(funds: Seq<Coin>) -> Option<nat> {
    if funds.len() == 1 && funds[0].denom@ == BID_DENOM@ && funds[0].amount > 0 {
        Some(funds[0].amount as nat)
    } else {
        None
    }
}

/// An auction as a mathematical value.
pub struct AuctionView {
    pub lifecycle: LifecycleView,
    pub ledger: LedgerView,
}

impl AuctionView {
    /// A fresh auction run by `admin`.
    pub open spec fn fresh(admin: Seq<char>) -> AuctionView {
        AuctionView { lifecycle: LifecycleView::fresh(admin), ledger: LedgerView::empty() }
    }

    /// Why a bid of `funds` by `sender` at `now` is turned down, if it is:
    /// the auction must be active, the funds a valid offer, and the sender
    /// not the admin, tested in this order.
    pub open spec fn bid_error(self, sender: Seq<char>, funds: Seq<Coin>, now: nat) -> Option<
        AuctionError,
    > {
        if self.lifecycle.active_error(now) is Some {
            self.lifecycle.active_error(now)
        } else if offered(funds) is None {
            Some(AuctionError::InvalidFunds)
        } else if sender == self.lifecycle.admin {
            Some(AuctionError::AdminCannotBid)
        } else {
            None
        }
    }

    /// The auction after `sender` has tried to bid `funds` at `now`.
    pub open spec fn place_bid(self, sender: Seq<char>, funds: Seq<Coin>, now: nat) -> AuctionView {
        if self.bid_error(sender, funds, now) is None {
            AuctionView { ledger: self.ledger.bid(sender, offered(funds)->0), ..self }
        } else {
            self
        }
    }

    /// Whether the highest bid meets the reserve. Without a bid, or without
    /// a configuration, it does not.
    pub open spec fn reserve_met(self) -> bool {
        &&& self.lifecycle.config is Some
        &&& self.ledger.highest is Some
        &&& self.ledger.highest->0.amount >= self.lifecycle.config->0.minimum_bid
    }

    /// What a withdrawal by `sender` at `now` pays out, or why it fails.
    ///
    /// The auction must have ended. Then the admin collects the highest
    /// bid, once, if the reserve is met; the highest bidder gets nothing
    /// back; anyone else gets back the whole of a non-empty entry.
    pub open spec fn withdrawal(self, sender: Seq<char>, now: nat) -> Result<
        TransferView,
        AuctionError,
    > {
        if self.lifecycle.ended_error(now) is Some {
            Err(self.lifecycle.ended_error(now)->0)
        } else if sender == self.lifecycle.admin {
            if self.lifecycle.completed {
                Err(AuctionError::AlreadySettled)
            } else if !self.reserve_met() {
                Err(AuctionError::ReserveNotMet)
            } else {
                Ok(TransferView { to: sender, amount: self.ledger.highest->0.amount })
            }
        } else if self.ledger.leads(sender) {
            Err(AuctionError::CannotWithdrawAsWinner)
        } else if self.ledger.total_of(sender) == 0 {
            Err(AuctionError::NothingToWithdraw)
        } else {
            Ok(TransferView { to: sender, amount: self.ledger.total_of(sender) })
        }
    }

    /// The auction after `sender` has tried to withdraw at `now`: settled
    /// if the admin was paid, without the sender's entry if a bidder was
    /// refunded, unchanged otherwise.
    pub open spec fn withdraw(self, sender: Seq<char>, now: nat) -> AuctionView {
        if self.withdrawal(sender, now) is Err {
            self
        } else if sender == self.lifecycle.admin {
            AuctionView { lifecycle: self.lifecycle.complete(), ..self }
        } else {
            AuctionView { ledger: self.ledger.take(sender), ..self }
        }
    }

    /// What anyone may know: whether the auction has started and, once it
    /// has, its reserve and end time.
    pub open spec fn info(self) -> InfoView {
        if self.lifecycle.started && self.lifecycle.config is Some {
            InfoView {
                started: true,
                minimum_bid: Some(self.lifecycle.config->0.minimum_bid),
                end_time: Some(self.lifecycle.config->0.end_time),
            }
        } else {
            InfoView { started: self.lifecycle.started, minimum_bid: None, end_time: None }
        }
    }

    /// The secret as disclosed to the verified `account` at `now`, or why it
    /// is withheld: the auction must have ended, the reserve be met, and
    /// the account be the highest bidder, tested in this order.
    pub open spec fn reveal_secret(self, account: Seq<char>, now: nat) -> Result<
        Seq<char>,
        AuctionError,
    > {
        if self.lifecycle.ended_error(now) is Some {
            Err(self.lifecycle.ended_error(now)->0)
        } else if !self.reserve_met() {
            Err(AuctionError::Unauthorized)
        } else if !self.ledger.leads(account) {
            Err(AuctionError::NotWinner)
        } else {
            Ok(self.lifecycle.config->0.secret)
        }
    }
}

/// An auction: its lifecycle and its bid ledger.
#[derive(Debug)]
pub struct SettlementEngine {
    pub lifecycle: AuctionLifecycle,
    pub ledger: BidLedger,
}

impl View for SettlementEngine {
    type V = AuctionView;

    open spec fn view(&self) -> AuctionView {
        AuctionView { lifecycle: self.lifecycle@, ledger: self.ledger@ }
    }
}

/// The amount that `funds` offer as a bid, if they are a valid offer.
pub fn offered_amount(funds: &Vec<Coin>) -> (amount: Option<u128>)
    ensures
        match amount {
            Some(value) => offered(funds@) == Some(value as nat),
            None => offered(funds@) is None,
        },
{
    if funds.len() != 1 {
        return None;
    }
    let denom = String::from_str(BID_DENOM);
    if funds[0].denom == denom && funds[0].amount > 0 {
        Some(funds[0].amount)
    } else {
        None
    }
}

impl SettlementEngine {
    /// The ledger is well formed.
    pub open spec fn wf(&self) -> bool {
        self.ledger.wf()
    }

    /// A fresh auction. Its admin is `admin`, or `caller` where none is
    /// named.
    pub fn instantiate(admin: Option<AccountId>, caller: AccountId) -> (engine: SettlementEngine)
        ensures
            engine.wf(),
            engine@.sound(),
            engine@ == AuctionView::fresh(
                match admin {
                    Some(named) => named@,
                    None => caller@,
                },
            ),
    {
        let admin = match admin {
            Some(named) => named,
            None => caller,
        };
        SettlementEngine { lifecycle: AuctionLifecycle::new(admin), ledger: BidLedger::new() }
    }

    /// Whether the total of `sender` with the offer of `funds` added still
    /// fits in 128 bits, as [`SettlementEngine::place_bid`] needs of a bid
    /// that it accepts.
    pub fn bid_fits(&self, sender: &AccountId, funds: &Vec<Coin>) -> (fits: bool)
        requires
            self.wf(),
        ensures
            fits == (offered(funds@) is Some ==> self@.ledger.total_of(sender@) + funds@[0].amount
                <= u128::MAX),
    {
        match offered_amount(funds) {
            None => true,
            Some(amount) => match self.ledger.get(sender) {
                None => true,
                Some(held) => held <= u128::MAX - amount,
            },
        }
    }

    /// Takes a bid of `funds` from `sender` at `now`: adds the amount to
    /// the sender's total and lets the sender lead if that total is
    /// strictly greater than the highest bid. No funds move; they stay
    /// recorded in the ledger.
    ///
    /// Fails if the auction is not active (`NotStarted`, `NotConfigured`,
    /// `AuctionEnded`), else with `InvalidFunds` unless the funds are one
    /// non-empty coin of the bid denomination, else with `AdminCannotBid`
    /// for the admin.
    pub fn place_bid(&mut self, sender: &AccountId, funds: &Vec<Coin>, now: u64) -> (done: Result<
        (),
        AuctionError,
    >)
        requires
            old(self).wf(),
            old(self)@.bid_error(sender@, funds@, now as nat) is None ==> old(
                self,
            )@.ledger.total_of(sender@) + funds@[0].amount <= u128::MAX,
        ensures
            final(self).wf(),
            match old(self)@.bid_error(sender@, funds@, now as nat) {
                Some(error) => done == Err::<(), AuctionError>(error) && *final(self) == *old(
                    self,
                ),
                None => done is Ok,
            },
            final(self)@ == old(self)@.place_bid(sender@, funds@, now as nat),
            old(self)@.sound() ==> final(self)@.sound(),
    {
        proof {
            if self@.sound() {
                law_step_keeps_sound(
                    self@,
                    Step { sender: sender@, funds: funds@, now: now as nat, call: CallView::Bid },
                );
            }
        }
        match self.lifecycle.check_active(now) {
            Err(error) => {
                return Err(error);
            },
            Ok(()) => {},
        }
        let amount: u128 = match offered_amount(funds) {
            Some(value) => value,
            None => {
                return Err(AuctionError::InvalidFunds);
            },
        };
        if sender.same(&self.lifecycle.admin) {
            return Err(AuctionError::AdminCannotBid);
        }
        let total: u128 = self.ledger.record_bid(sender, amount);
        self.ledger.maybe_promote(sender, total);
        Ok(())
    }

    /// The amount of the highest bid if it meets the reserve.
    pub fn winning_amount(&self) -> (amount: Option<u128>)
        ensures
            match amount {
                Some(value) => self@.reserve_met() && self@.ledger.highest->0.amount == value,
                None => !self@.reserve_met(),
            },
    {
        match (&self.lifecycle.config, self.ledger.highest_bid()) {
            (Some(config), Some(lead)) => {
                if lead.amount >= config.minimum_bid {
                    Some(lead.amount)
                } else {
                    None
                }
            },
            _ => None,
        }
    }

    /// Whether the highest bid meets the reserve.
    pub fn reserve_met(&self) -> (met: bool)
        ensures
            met == self@.reserve_met(),
    {
        self.winning_amount().is_some()
    }

    /// Whether `account` is the recorded highest bidder.
    pub fn leads(&self, account: &AccountId) -> (leads: bool)
        ensures
            leads == self@.ledger.leads(account@),
    {
        match self.ledger.highest_bid() {
            Some(lead) => lead.bidder.same(account),
            None => false,
        }
    }

    /// Lets `sender` withdraw at `now` and returns the transfer to carry
    /// out.
    ///
    /// Fails unless the auction has ended (`NotStarted`, `NotConfigured`,
    /// `AuctionNotEnded`). The admin then collects the highest bid and the
    /// auction is settled; this fails with `AlreadySettled` the second
    /// time, else with `ReserveNotMet` below the reserve. The highest
    /// bidder fails with `CannotWithdrawAsWinner`. Anyone else gets the
    /// whole entry back and loses it, or fails with `NothingToWithdraw`
    /// without an entry or with an empty one; the reserve plays no part.
    pub fn withdraw(&mut self, sender: &AccountId, now: u64) -> (paid: Result<
        Transfer,
        AuctionError,
    >)
        requires
            old(self).wf(),
        ensures
            final(self).wf(),
            match old(self)@.withdrawal(sender@, now as nat) {
                Ok(transfer) => paid is Ok && paid->Ok_0@ == transfer,
                Err(error) => paid == Err::<Transfer, AuctionError>(error) && *final(self)
                    == *old(self),
            },
            final(self)@ == old(self)@.withdraw(sender@, now as nat),
            old(self)@.sound() ==> final(self)@.sound(),
    {
        proof {
            if self@.sound() {
                law_step_keeps_sound(
                    self@,
                    Step {
                        sender: sender@,
                        funds: Seq::empty(),
                        now: now as nat,
                        call: CallView::Withdraw,
                    },
                );
            }
        }
        match self.lifecycle.check_ended(now) {
            Err(error) => {
                return Err(error);
            },
            Ok(()) => {},
        }
        if sender.same(&self.lifecycle.admin) {
            if self.lifecycle.flags.completed {
                return Err(AuctionError::AlreadySettled);
            }
            return match self.winning_amount() {
                None => Err(AuctionError::ReserveNotMet),
                Some(amount) => {
                    self.lifecycle.flags.completed = true;
                    Ok(Transfer { to: sender.clone(), amount })
                },
            };
        }
        if self.leads(sender) {
            return Err(AuctionError::CannotWithdrawAsWinner);
        }
        let held: u128 = match self.ledger.get(sender) {
            Some(amount) => amount,
            None => 0,
        };
        if held == 0 {
            return Err(AuctionError::NothingToWithdraw);
        }
        let _ = self.ledger.take(sender);
        Ok(Transfer { to: sender.clone(), amount: held })
    }

    /// What anyone may know of the auction: whether it has started and,
    /// once it has, its reserve and end time.
    pub fn auction_info(&self) -> (info: AuctionInfo)
        ensures
            info@ == self@.info(),
    {
        match &self.lifecycle.config {
            Some(config) => {
                if self.lifecycle.flags.started {
                    AuctionInfo {
                        started: true,
                        minimum_bid: Some(config.minimum_bid),
                        end_time: Some(config.end_time),
                    }
                } else {
                    AuctionInfo { started: false, minimum_bid: None, end_time: None }
                }
            },
            None => AuctionInfo {
                started: self.lifecycle.flags.started,
                minimum_bid: None,
                end_time: None,
            },
        }
    }

    /// Discloses the secret to `verified_account` at `now`.
    ///
    /// Fails unless the auction has ended (`NotStarted`, `NotConfigured`,
    /// `AuctionNotEnded`), else with `Unauthorized` while the reserve is
    /// not met, whoever asks, else with `NotWinner` unless the account is
    /// the highest bidder. Nothing changes either way.
    pub fn reveal_secret(&self, verified_account: &AccountId, now: u64) -> (secret: Result<
        String,
        AuctionError,
    >)
        ensures
            match self@.reveal_secret(verified_account@, now as nat) {
                Ok(text) => secret is Ok && secret->Ok_0@ == text,
                Err(error) => secret == Err::<String, AuctionError>(error),
            },
    {
        match self.lifecycle.check_ended(now) {
            Err(error) => {
                return Err(error);
            },
            Ok(()) => {},
        }
        match (&self.lifecycle.config, self.ledger.highest_bid()) {
            (Some(config), Some(lead)) => {
                if lead.amount < config.minimum_bid {
                    Err(AuctionError::Unauthorized)
                } else if !lead.bidder.same(verified_account) {
                    Err(AuctionError::NotWinner)
                } else {
                    Ok(config.secret.clone())
                }
            },
            _ => Err(AuctionError::Unauthorized),
        }
    }
}

} // verus!
