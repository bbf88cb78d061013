//! The auction's lifecycle: configured by the admin, started once, active
//! until its end time, ended after it.

use vstd::prelude::*;
use crate::account::AccountId;
use crate::auction::error::AuctionError;

verus! {

/// What the admin fixes before the start: the secret on sale, the reserve
/// and the last second in which bids are taken.
#[derive(Debug, PartialEq, Eq)]
pub struct AuctionConfig {
    pub secret: String,
    pub minimum_bid: u128,
    pub end_time: u64,
}

/// A configuration as a mathematical value.
pub struct ConfigView {
    pub secret: Seq<char>,
    pub minimum_bid: nat,
    pub end_time: nat,
}

impl View for AuctionConfig {
    type V = ConfigView;

    open spec fn view(&self) -> ConfigView {
        ConfigView {
            secret: self.secret@,
            minimum_bid: self.minimum_bid as nat,
            end_time: self.end_time as nat,
        }
    }
}

/// The two one-way switches of an auction.
#[derive(Clone, Copy, Debug, PartialEq, Eq, Structural)]
pub struct LifecycleFlags {
    pub started: bool,
    pub completed: bool,
}

/// Where an auction stands at a given time.
#[derive(Clone, Copy, Debug, PartialEq, Eq, Structural)]
pub enum Phase {
    /// Nothing configured yet.
    Uninitialized,
    /// Configured, not started.
    Configured,
    /// Started and not past the end time.
    Active,
    /// Started and past the end time.
    Ended,
}

/// The admin, the configuration if one was set, and the flags.
#[derive(Debug)]
pub struct AuctionLifecycle {
    pub admin: AccountId,
    pub config: Option<AuctionConfig>,
    pub flags: LifecycleFlags,
}

/// A lifecycle as a mathematical value.
pub struct LifecycleView {
    pub admin: Seq<char>,
    pub config: Option<ConfigView>,
    pub started: bool,
    pub completed: bool,
}

impl View for AuctionLifecycle {
    type V = LifecycleView;

    open spec fn view(&self) -> LifecycleView {
        LifecycleView {
            admin: self.admin@,
            config: match self.config {
                Some(config) => Some(config@),
                None => None,
            },
            started: self.flags.started,
            completed: self.flags.completed,
        }
    }
}

impl LifecycleView {
    /// The lifecycle of a fresh auction run by `admin`.
    pub open spec fn fresh(admin: Seq<char>) -> LifecycleView {
        LifecycleView { admin, config: None, started: false, completed: false }
    }

    /// Started, and `now` is not past the end time.
    pub open spec fn is_active(self, now: nat) -> bool {
        self.started && self.config is Some && now <= self.config->0.end_time
    }

    /// Started, and `now` is past the end time.
    pub open spec fn has_ended(self, now: nat) -> bool {
        self.started && self.config is Some && now > self.config->0.end_time
    }

    /// The phase at `now`.
    pub open spec fn phase(self, now: nat) -> Phase {
        if self.config is None {
            Phase::Uninitialized
        } else if !self.started {
            Phase::Configured
        } else if now <= self.config->0.end_time {
            Phase::Active
        } else {
            Phase::Ended
        }
    }

    /// Why `by` may not configure, if so: only the admin may, and only
    /// before the start.
    pub open spec fn configure_error(self, by: Seq<char>) -> Option<AuctionError> {
        if by != self.admin {
            Some(AuctionError::Unauthorized)
        } else if self.started {
            Some(AuctionError::AlreadyStarted)
        } else {
            None
        }
    }

    /// The lifecycle with `config` in place of any earlier configuration.
    pub open spec fn configure(self, config: ConfigView) -> LifecycleView {
        LifecycleView { config: Some(config), ..self }
    }

    /// Why `by` may not start, if so: only the admin may, once, and with a
    /// configuration in place.
    pub open spec fn start_error(self, by: Seq<char>) -> Option<AuctionError> {
        if by != self.admin {
            Some(AuctionError::Unauthorized)
        } else if self.started {
            Some(AuctionError::AlreadyStarted)
        } else if self.config is None {
            Some(AuctionError::NotConfigured)
        } else {
            None
        }
    }

    /// The lifecycle once started.
    pub open spec fn start(self) -> LifecycleView {
        LifecycleView { started: true, ..self }
    }

    /// Why no bid is taken at `now`, if so: `NotStarted` before the start,
    /// `AuctionEnded` past the end time. A started auction without a
    /// configuration, which no call leads to, counts as `NotConfigured`.
    pub open spec fn active_error(self, now: nat) -> Option<AuctionError> {
        if !self.started {
            Some(AuctionError::NotStarted)
        } else if self.config is None {
            Some(AuctionError::NotConfigured)
        } else if now > self.config->0.end_time {
            Some(AuctionError::AuctionEnded)
        } else {
            None
        }
    }

    /// Why the auction does not count as ended at `now`, if so:
    /// `NotStarted` before the start, `AuctionNotEnded` up to and including
    /// the end time. A started auction without a configuration, which no
    /// call leads to, counts as `NotConfigured`.
    pub open spec fn ended_error(self, now: nat) -> Option<AuctionError> {
        if !self.started {
            Some(AuctionError::NotStarted)
        } else if self.config is None {
            Some(AuctionError::NotConfigured)
        } else if now <= self.config->0.end_time {
            Some(AuctionError::AuctionNotEnded)
        } else {
            None
        }
    }

    /// The lifecycle once settled.
    pub open spec fn complete(self) -> LifecycleView {
        LifecycleView { completed: true, ..self }
    }

    /// What holds of every lifecycle that calls can lead to: a started
    /// auction has a configuration, and only a started one is settled.
    pub open spec fn consistent(self) -> bool {
        &&& self.started ==> self.config is Some
        &&& self.completed ==> self.started
    }
}

impl AuctionLifecycle {
    /// The lifecycle of a fresh auction run by `admin`.
    pub fn new(admin: AccountId) -> (lifecycle: AuctionLifecycle)
        ensures
            lifecycle@ == LifecycleView::fresh(admin@),
    {
        AuctionLifecycle {
            admin,
            config: None,
            flags: LifecycleFlags { started: false, completed: false },
        }
    }

    /// Sets the configuration, replacing an earlier one. Fails with
    /// `Unauthorized` unless `by` is the admin, else with `AlreadyStarted`
    /// once the auction has started.
    pub fn configure(
        &mut self,
        by: &AccountId,
        secret: String,
        minimum_bid: u128,
        end_time: u64,
    ) -> (done: Result<(), AuctionError>)
        ensures
            match old(self)@.configure_error(by@) {
                Some(error) => done == Err::<(), AuctionError>(error) && *final(self) == *old(
                    self,
                ),
                None => done is Ok && final(self)@ == old(self)@.configure(
                    ConfigView {
                        secret: secret@,
                        minimum_bid: minimum_bid as nat,
                        end_time: end_time as nat,
                    },
                ),
            },
    {
        if !by.same(&self.admin) {
            return Err(AuctionError::Unauthorized);
        }
        if self.flags.started {
            return Err(AuctionError::AlreadyStarted);
        }
        self.config = Some(AuctionConfig { secret, minimum_bid, end_time });
        Ok(())
    }

    /// Starts the auction. Fails with `Unauthorized` unless `by` is the
    /// admin, else with `AlreadyStarted` if it has started, else with
    /// `NotConfigured` if there is no configuration.
    pub fn start(&mut self, by: &AccountId) -> (done: Result<(), AuctionError>)
        ensures
            match old(self)@.start_error(by@) {
                Some(error) => done == Err::<(), AuctionError>(error) && *final(self) == *old(
                    self,
                ),
                None => done is Ok && final(self)@ == old(self)@.start(),
            },
    {
        if !by.same(&self.admin) {
            return Err(AuctionError::Unauthorized);
        }
        if self.flags.started {
            return Err(AuctionError::AlreadyStarted);
        }
        if self.config.is_none() {
            return Err(AuctionError::NotConfigured);
        }
        self.flags.started = true;
        Ok(())
    }

    /// Whether bids are taken at `now`.
    pub fn is_active(&self, now: u64) -> (active: bool)
        ensures
            active == self@.is_active(now as nat),
    {
        match &self.config {
            Some(config) => self.flags.started && now <= config.end_time,
            None => false,
        }
    }

    /// Whether the auction is over at `now`.
    pub fn has_ended(&self, now: u64) -> (ended: bool)
        ensures
            ended == self@.has_ended(now as nat),
    {
        match &self.config {
            Some(config) => self.flags.started && now > config.end_time,
            None => false,
        }
    }

    /// The phase at `now`.
    pub fn phase(&self, now: u64) -> (phase: Phase)
        ensures
            phase == self@.phase(now as nat),
    {
        match &self.config {
            None => Phase::Uninitialized,
            Some(config) => {
                if !self.flags.started {
                    Phase::Configured
                } else if now <= config.end_time {
                    Phase::Active
                } else {
                    Phase::Ended
                }
            },
        }
    }

    /// Passes while bids are taken at `now`; else the reason they are not.
    pub fn check_active(&self, now: u64) -> (check: Result<(), AuctionError>)
        ensures
            match self@.active_error(now as nat) {
                Some(error) => check == Err::<(), AuctionError>(error),
                None => check is Ok,
            },
    {
        if !self.flags.started {
            return Err(AuctionError::NotStarted);
        }
        match &self.config {
            None => Err(AuctionError::NotConfigured),
            Some(config) => {
                if now > config.end_time {
                    Err(AuctionError::AuctionEnded)
                } else {
                    Ok(())
                }
            },
        }
    }

    /// Passes once the auction is over at `now`; else the reason it is not.
    pub fn check_ended(&self, now: u64) -> (check: Result<(), AuctionError>)
        ensures
            match self@.ended_error(now as nat) {
                Some(error) => check == Err::<(), AuctionError>(error),
                None => check is Ok,
            },
    {
        if !self.flags.started {
            return Err(AuctionError::NotStarted);
        }
        match &self.config {
            None => Err(AuctionError::NotConfigured),
            Some(config) => {
                if now <= config.end_time {
                    Err(AuctionError::AuctionNotEnded)
                } else {
                    Ok(())
                }
            },
        }
    }
}

} // verus!
