//! The auction as one transition function: every call is a step from one
//! state to the next, with the transfers it issues or the reason it failed.

use vstd::prelude::*;
use crate::account::AccountId;
use crate::auction::engine::{AuctionInfo, AuctionView, InfoView, SettlementEngine};
use crate::auction::error::AuctionError;
use crate::auction::laws::law_step_keeps_sound;
use crate::auction::lifecycle::ConfigView;
use crate::host::{Coin, Env, MessageInfo};
use crate::response::{Response, TransferView};

verus! {

/// A call that may change the auction.
#[derive(Debug, PartialEq, Eq)]
pub enum AuctionMsg {
    /// Sets the configuration; for the admin, before the start.
    SetAuction { secret: String, minimum_bid: u128, end_time: u64 },
    /// Starts the auction; for the admin, once configured.
    StartAuction,
    /// Bids the attached funds; for anyone but the admin, while active.
    Bid,
    /// Withdraws what is due to the sender; for anyone, after the end.
    Withdraw,
}

/// A changing call as a mathematical value.
pub enum CallView {
    SetAuction { config: ConfigView },
    StartAuction,
    Bid,
    Withdraw,
}

impl View for AuctionMsg {
    type V = CallView;

    open spec fn view(&self) -> CallView {
        match self {
            AuctionMsg::SetAuction { secret, minimum_bid, end_time } => CallView::SetAuction {
                config: ConfigView {
                    secret: secret@,
                    minimum_bid: *minimum_bid as nat,
                    end_time: *end_time as nat,
                },
            },
            AuctionMsg::StartAuction => CallView::StartAuction,
            AuctionMsg::Bid => CallView::Bid,
            AuctionMsg::Withdraw => CallView::Withdraw,
        }
    }
}

/// One call together with what the host knows of it: who sent it, the
/// funds attached, and the time.
pub struct Step {
    pub sender: Seq<char>,
    pub funds: Seq<Coin>,
    pub now: nat,
    pub call: CallView,
}

/// A call that only reads.
#[derive(Debug, PartialEq, Eq)]
pub enum AuctionQuery {
    /// Asks for the public information.
    AuctionInfo,
    /// Asks for the secret. `identity` is the verdict of the credential
    /// check: the verified account, or the verifier's reason for refusing.
    GetSecret { identity: Result<AccountId, String> },
}

/// A reading call as a mathematical value.
pub enum QueryView {
    AuctionInfo,
    GetSecret { identity: Result<Seq<char>, String> },
}

impl View for AuctionQuery {
    type V = QueryView;

    open spec fn view(&self) -> QueryView {
        match self {
            AuctionQuery::AuctionInfo => QueryView::AuctionInfo,
            AuctionQuery::GetSecret { identity } => QueryView::GetSecret {
                identity: match identity {
                    Ok(account) => Ok(account@),
                    Err(reason) => Err(*reason),
                },
            },
        }
    }
}

/// The answer to a reading call.
#[derive(Debug, PartialEq, Eq)]
pub enum AuctionAnswer {
    AuctionInfo { started: bool, minimum_bid: Option<u128>, end_time: Option<u64> },
    GetSecret { secret: String },
}

/// An answer as a mathematical value.
pub enum AnswerView {
    AuctionInfo { info: InfoView },
    GetSecret { secret: Seq<char> },
}

impl View for AuctionAnswer {
    type V = AnswerView;

    open spec fn view(&self) -> AnswerView {
        match self {
            AuctionAnswer::AuctionInfo { started, minimum_bid, end_time } => {
                AnswerView::AuctionInfo {
                    info: (AuctionInfo {
                        started: *started,
                        minimum_bid: *minimum_bid,
                        end_time: *end_time,
                    })@,
                }
            },
            AuctionAnswer::GetSecret { secret } => AnswerView::GetSecret { secret: secret@ },
        }
    }
}

/// The step that a call makes: sent as `info` says, at the time of `env`.
pub open spec fn step_of(env: &Env, info: &MessageInfo, call: CallView) -> Step {
    Step { sender: info.sender@, funds: info.funds@, now: env.block.time as nat, call }
}

impl AuctionView {
    /// The transfers that a step issues, or why it fails. A step issues at
    /// most one transfer.
    pub open spec fn outcome(self, step: Step) -> Result<Seq<TransferView>, AuctionError> {
        match step.call {
            CallView::SetAuction { config } => match self.lifecycle.configure_error(
                step.sender,
            ) {
                Some(error) => Err(error),
                None => Ok(Seq::empty()),
            },
            CallView::StartAuction => match self.lifecycle.start_error(step.sender) {
                Some(error) => Err(error),
                None => Ok(Seq::empty()),
            },
            CallView::Bid => match self.bid_error(step.sender, step.funds, step.now) {
                Some(error) => Err(error),
                None => Ok(Seq::empty()),
            },
            CallView::Withdraw => match self.withdrawal(step.sender, step.now) {
                Ok(transfer) => Ok(seq![transfer]),
                Err(error) => Err(error),
            },
        }
    }

    /// The auction after a step. A step that fails changes nothing.
    pub open spec fn apply(self, step: Step) -> AuctionView {
        match step.call {
            CallView::SetAuction { config } => {
                if self.lifecycle.configure_error(step.sender) is None {
                    AuctionView { lifecycle: self.lifecycle.configure(config), ..self }
                } else {
                    self
                }
            },
            CallView::StartAuction => {
                if self.lifecycle.start_error(step.sender) is None {
                    AuctionView { lifecycle: self.lifecycle.start(), ..self }
                } else {
                    self
                }
            },
            CallView::Bid => self.place_bid(step.sender, step.funds, step.now),
            CallView::Withdraw => self.withdraw(step.sender, step.now),
        }
    }

    /// The auction after a run of steps, first to last.
    pub open spec fn run(self, steps: Seq<Step>) -> AuctionView
        decreases steps.len(),
    {
        if steps.len() == 0 {
            self
        } else {
            self.apply(steps[0]).run(steps.drop_first())
        }
    }

    /// The answer to a reading call at `now`. The secret goes to a
    /// verified account alone; a failed credential check is passed on with
    /// the verifier's reason.
    pub open spec fn answer(self, query: QueryView, now: nat) -> Result<AnswerView, AuctionError> {
        match query {
            QueryView::AuctionInfo => Ok(AnswerView::AuctionInfo { info: self.info() }),
            QueryView::GetSecret { identity } => match identity {
                Err(reason) => Err(AuctionError::IdentityVerificationFailed(reason)),
                Ok(account) => match self.reveal_secret(account, now) {
                    Ok(secret) => Ok(AnswerView::GetSecret { secret }),
                    Err(error) => Err(error),
                },
            },
        }
    }
}

impl SettlementEngine {
    /// Carries out one changing call, sent as `info` says at the time of
    /// `env`, and returns the transfers for the host to make.
    ///
    /// The call fails or succeeds as the operation it names; on failure
    /// the auction is left as it was.
    pub fn execute(&mut self, env: &Env, info: &MessageInfo, msg: AuctionMsg) -> (done: Result<
        Response,
        AuctionError,
    >)
        requires
            old(self).wf(),
            msg is Bid && old(self)@.bid_error(info.sender@, info.funds@, env.block.time as nat)
                is None ==> old(self)@.ledger.total_of(info.sender@) + info.funds@[0].amount
                <= u128::MAX,
        ensures
            final(self).wf(),
            match old(self)@.outcome(step_of(env, info, msg@)) {
                Ok(transfers) => done is Ok && done->Ok_0@ == transfers,
                Err(error) => done == Err::<Response, AuctionError>(error) && *final(self)
                    == *old(self),
            },
            final(self)@ == old(self)@.apply(step_of(env, info, msg@)),
            old(self)@.sound() ==> final(self)@.sound(),
    {
        proof {
            if self@.sound() {
                law_step_keeps_sound(self@, step_of(env, info, msg@));
            }
        }
        let now = env.block.time;
        match msg {
            AuctionMsg::SetAuction { secret, minimum_bid, end_time } => {
                match self.lifecycle.configure(&info.sender, secret, minimum_bid, end_time) {
                    Ok(()) => Ok(Response::new()),
                    Err(error) => Err(error),
                }
            },
            AuctionMsg::StartAuction => {
                match self.lifecycle.start(&info.sender) {
                    Ok(()) => Ok(Response::new()),
                    Err(error) => Err(error),
                }
            },
            AuctionMsg::Bid => {
                match self.place_bid(&info.sender, &info.funds, now) {
                    Ok(()) => Ok(Response::new()),
                    Err(error) => Err(error),
                }
            },
            AuctionMsg::Withdraw => {
                match self.withdraw(&info.sender, now) {
                    Ok(transfer) => Ok(Response::with_transfer(transfer)),
                    Err(error) => Err(error),
                }
            },
        }
    }

    /// Answers the identity-gated request for the secret at `now`.
    ///
    /// `identity` is the verdict of the credential check. A refusal comes
    /// back as `IdentityVerificationFailed` with the verifier's reason;
    /// a verified account is answered as by [`SettlementEngine::reveal_secret`].
    pub fn get_secret(&self, identity: Result<AccountId, String>, now: u64) -> (secret: Result<
        String,
        AuctionError,
    >)
        ensures
            match identity {
                Err(reason) => secret == Err::<String, AuctionError>(
                    AuctionError::IdentityVerificationFailed(reason),
                ),
                Ok(account) => match self@.reveal_secret(account@, now as nat) {
                    Ok(text) => secret is Ok && secret->Ok_0@ == text,
                    Err(error) => secret == Err::<String, AuctionError>(error),
                },
            },
    {
        match identity {
            Err(reason) => Err(AuctionError::IdentityVerificationFailed(reason)),
            Ok(account) => self.reveal_secret(&account, now),
        }
    }

    /// Answers one reading call at the time of `env`. Nothing changes.
    pub fn query(&self, env: &Env, msg: AuctionQuery) -> (answer: Result<
        AuctionAnswer,
        AuctionError,
    >)
        ensures
            match self@.answer(msg@, env.block.time as nat) {
                Ok(expected) => answer is Ok && answer->Ok_0@ == expected,
                Err(error) => answer == Err::<AuctionAnswer, AuctionError>(error),
            },
    {
        match msg {
            AuctionQuery::AuctionInfo => {
                let info = self.auction_info();
                Ok(
                    AuctionAnswer::AuctionInfo {
                        started: info.started,
                        minimum_bid: info.minimum_bid,
                        end_time: info.end_time,
                    },
                )
            },
            AuctionQuery::GetSecret { identity } => {
                match self.get_secret(identity, env.block.time) {
                    Ok(secret) => Ok(AuctionAnswer::GetSecret { secret }),
                    Err(error) => Err(error),
                }
            },
        }
    }
}

} // verus!
