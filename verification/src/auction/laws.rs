//! What holds of every auction, whatever calls are made in whatever order.

use vstd::prelude::*;
use crate::auction::calls::{QueryView, Step};
use crate::auction::engine::{offered, AuctionView};
use crate::host::Coin;
use crate::auction::error::AuctionError;
use crate::auction::ledger::Lead;
use crate::response::TransferView;

verus! {

impl AuctionView {
    /// What holds of every auction that calls can lead to.
    ///
    /// A started auction is configured and only a started one is settled;
    /// bids exist only once it has started; the lead is the maximum of the
    /// totals; every entry is positive; the admin has no entry; and a
    /// settled auction has met its reserve.
    pub open spec fn sound(self) -> bool {
        &&& self.lifecycle.consistent()
        &&& self.ledger.lead_is_max()
        &&& forall|account: Seq<char>| #[trigger]
            self.ledger.totals.contains_key(account) ==> self.ledger.totals[account] > 0
        &&& !self.ledger.totals.contains_key(self.lifecycle.admin)
        &&& (self.ledger.highest is Some ==> self.lifecycle.started)
        &&& (self.lifecycle.completed ==> self.reserve_met())
    }

    /// How often, in a run of steps, the auction turns from unsettled to
    /// settled.
    pub open spec fn settlements(self, steps: Seq<Step>) -> nat
        decreases steps.len(),
    {
        if steps.len() == 0 {
            0
        } else {
            let next = self.apply(steps[0]);
            let here: nat = if !self.lifecycle.completed && next.lifecycle.completed {
                1
            } else {
                0
            };
            here + next.settlements(steps.drop_first())
        }
    }

    /// What `account` puts into escrow by a step: the amount offered, if
    /// the step is a bid of the account that is taken.
    pub open spec fn paid_in(self, step: Step, account: Seq<char>) -> nat {
        if step.call is Bid && step.sender == account && self.outcome(step) is Ok {
            offered(step.funds)->0
        } else {
            0
        }
    }

    /// What `account` gets back from escrow by a step: the amount
    /// transferred, if the step is a refund to the account.
    pub open spec fn refunded(self, step: Step, account: Seq<char>) -> nat {
        if step.call is Withdraw && step.sender == account && account != self.lifecycle.admin
            && self.withdrawal(account, step.now) is Ok {
            self.withdrawal(account, step.now)->Ok_0.amount
        } else {
            0
        }
    }

    /// What `account` puts into escrow over a run of steps.
    pub open spec fn paid_in_over(self, steps: Seq<Step>, account: Seq<char>) -> nat
        decreases steps.len(),
    {
        if steps.len() == 0 {
            0
        } else {
            self.paid_in(steps[0], account) + self.apply(steps[0]).paid_in_over(
                steps.drop_first(),
                account,
            )
        }
    }

    /// What `account` gets back from escrow over a run of steps.
    pub open spec fn refunded_over(self, steps: Seq<Step>, account: Seq<char>) -> nat
        decreases steps.len(),
    {
        if steps.len() == 0 {
            0
        } else {
            self.refunded(steps[0], account) + self.apply(steps[0]).refunded_over(
                steps.drop_first(),
                account,
            )
        }
    }
}

/// A fresh auction is sound.
pub proof fn law_fresh_is_sound(admin: Seq<char>)
    ensures
        AuctionView::fresh(admin).sound(),
{
}

/// Every step keeps a sound auction sound. In particular the highest bid
/// stays the maximum of the cumulative totals, and the admin never gets an
/// entry.
pub proof fn law_step_keeps_sound(state: AuctionView, step: Step)
    requires
        state.sound(),
    ensures
        state.apply(step).sound(),
{
}

/// Every run of steps keeps a sound auction sound.
pub proof fn law_run_keeps_sound(state: AuctionView, steps: Seq<Step>)
    requires
        state.sound(),
    ensures
        state.run(steps).sound(),
    decreases steps.len(),
{
    if steps.len() > 0 {
        law_step_keeps_sound(state, steps[0]);
        law_run_keeps_sound(state.apply(steps[0]), steps.drop_first());
    }
}

/// After any run of steps on a fresh auction, the highest bid is the
/// maximum of the cumulative totals: there is a lead exactly when there is
/// an entry, the leader's own total is the lead, and no total is greater.
pub proof fn law_highest_is_max(admin: Seq<char>, steps: Seq<Step>)
    ensures
        AuctionView::fresh(admin).run(steps).ledger.lead_is_max(),
{
    law_fresh_is_sound(admin);
    law_run_keeps_sound(AuctionView::fresh(admin), steps);
}

/// No step lowers the amount of the highest bid.
pub proof fn law_highest_never_falls(state: AuctionView, step: Step)
    ensures
        state.apply(step).ledger.highest_amount() >= state.ledger.highest_amount(),
{
}

/// No run of steps lowers the amount of the highest bid.
pub proof fn law_highest_never_falls_in_run(state: AuctionView, steps: Seq<Step>)
    ensures
        state.run(steps).ledger.highest_amount() >= state.ledger.highest_amount(),
    decreases steps.len(),
{
    if steps.len() > 0 {
        law_highest_never_falls(state, steps[0]);
        law_highest_never_falls_in_run(state.apply(steps[0]), steps.drop_first());
    }
}

/// A step changes the lead only by a bid that takes its sender's total
/// strictly above the amount of the highest bid. A bid that reaches an
/// equal total leaves the earlier bidder in front.
pub proof fn law_lead_changes_only_upwards(state: AuctionView, step: Step)
    ensures
        state.apply(step).ledger.highest != state.ledger.highest ==> {
            &&& step.call is Bid
            &&& state.apply(step).ledger.highest == Some(
                Lead {
                    bidder: step.sender,
                    amount: state.ledger.total_of(step.sender) + offered(step.funds)->0,
                },
            )
            &&& (state.ledger.highest is Some ==> state.ledger.total_of(step.sender) + offered(
                step.funds,
            )->0 > state.ledger.highest->0.amount)
        },
{
}

/// A bid that brings its sender's total to no more than the highest bid,
/// equal included, leaves the recorded highest bid as it was.
pub proof fn law_tie_keeps_leader(state: AuctionView, sender: Seq<char>, funds: Seq<Coin>, now: nat)
    requires
        state.ledger.highest is Some,
        offered(funds) is Some,
        state.ledger.total_of(sender) + offered(funds)->0 <= state.ledger.highest->0.amount,
    ensures
        state.place_bid(sender, funds, now).ledger.highest == state.ledger.highest,
{
}

/// After any run of steps on a fresh auction, the admin has no entry in
/// the ledger.
pub proof fn law_admin_has_no_entry(admin: Seq<char>, steps: Seq<Step>)
    ensures
        !AuctionView::fresh(admin).run(steps).ledger.totals.contains_key(admin),
        AuctionView::fresh(admin).run(steps).lifecycle.admin == admin,
{
    law_fresh_is_sound(admin);
    law_run_keeps_sound(AuctionView::fresh(admin), steps);
    law_admin_is_fixed(AuctionView::fresh(admin), steps);
}

/// No run of steps changes the admin.
pub proof fn law_admin_is_fixed(state: AuctionView, steps: Seq<Step>)
    ensures
        state.run(steps).lifecycle.admin == state.lifecycle.admin,
    decreases steps.len(),
{
    if steps.len() > 0 {
        law_admin_is_fixed(state.apply(steps[0]), steps.drop_first());
    }
}

/// A step changes the configuration only as a `SetAuction` call of the
/// admin before the start, and there is a configuration exactly when one
/// was there before or the step has set one.
pub proof fn law_configured_only_by_admin_before_start(state: AuctionView, step: Step)
    ensures
        state.apply(step).lifecycle.config != state.lifecycle.config ==> {
            &&& step.call is SetAuction
            &&& step.sender == state.lifecycle.admin
            &&& !state.lifecycle.started
            &&& state.apply(step).lifecycle.config == Some(step.call->config)
        },
        state.apply(step).lifecycle.config is Some <==> state.lifecycle.config is Some || (
        step.call is SetAuction && state.outcome(step) is Ok),
{
}

/// A step starts the auction only as a `StartAuction` call of the admin on
/// a configured auction.
pub proof fn law_started_only_by_admin(state: AuctionView, step: Step)
    requires
        !state.lifecycle.started,
        state.apply(step).lifecycle.started,
    ensures
        step.call is StartAuction,
        step.sender == state.lifecycle.admin,
        state.lifecycle.config is Some,
{
}

/// A step opens or raises the entry of an account only as a bid of that
/// account, made while the auction is active; so an entry that a refund
/// has removed comes back only by a fresh bid of the same account.
pub proof fn law_entry_rises_only_by_own_bid(state: AuctionView, step: Step, account: Seq<char>)
    requires
        state.apply(step).ledger.total_of(account) > state.ledger.total_of(account)
            || (state.apply(step).ledger.totals.contains_key(account)
            && !state.ledger.totals.contains_key(account)),
    ensures
        step.call is Bid,
        step.sender == account,
        state.lifecycle.is_active(step.now),
        state.outcome(step) is Ok,
{
}

/// A started auction stays started and keeps its configuration; a settled
/// auction stays settled.
pub proof fn law_switches_are_one_way(state: AuctionView, step: Step)
    ensures
        state.lifecycle.started ==> state.apply(step).lifecycle.started && state.apply(
            step,
        ).lifecycle.config == state.lifecycle.config,
        state.lifecycle.completed ==> state.apply(step).lifecycle.completed,
{
}

/// The auction becomes settled only by a withdrawal of the admin after the
/// end that pays out the highest bid, which meets the reserve.
pub proof fn law_settled_only_by_admin_after_end(state: AuctionView, step: Step)
    requires
        !state.lifecycle.completed,
        state.apply(step).lifecycle.completed,
    ensures
        step.call is Withdraw,
        step.sender == state.lifecycle.admin,
        state.lifecycle.has_ended(step.now),
        state.reserve_met(),
        state.outcome(step) == Ok::<Seq<TransferView>, AuctionError>(
            seq![
                TransferView {
                    to: state.lifecycle.admin,
                    amount: state.ledger.highest->0.amount,
                },
            ],
        ),
{
}

/// A settled auction is still settled after any run of steps.
pub proof fn law_settled_stays_settled(state: AuctionView, steps: Seq<Step>)
    requires
        state.lifecycle.completed,
    ensures
        state.run(steps).lifecycle.completed,
    decreases steps.len(),
{
    if steps.len() > 0 {
        law_switches_are_one_way(state, steps[0]);
        law_settled_stays_settled(state.apply(steps[0]), steps.drop_first());
    }
}

/// In a run of steps the auction turns from unsettled to settled at most
/// once, and never if it was settled before.
pub proof fn law_settles_at_most_once(state: AuctionView, steps: Seq<Step>)
    ensures
        state.settlements(steps) <= 1,
        state.lifecycle.completed ==> state.settlements(steps) == 0,
        state.settlements(steps) == 1 ==> state.run(steps).lifecycle.completed,
    decreases steps.len(),
{
    if steps.len() > 0 {
        law_switches_are_one_way(state, steps[0]);
        law_settles_at_most_once(state.apply(steps[0]), steps.drop_first());
        if state.apply(steps[0]).lifecycle.completed {
            law_settled_stays_settled(state.apply(steps[0]), steps.drop_first());
        }
    }
}

/// A step that fails changes nothing.
pub proof fn law_failed_step_changes_nothing(state: AuctionView, step: Step)
    requires
        state.outcome(step) is Err,
    ensures
        state.apply(step) == state,
{
}

/// A step issues at most one transfer.
pub proof fn law_at_most_one_transfer(state: AuctionView, step: Step)
    ensures
        state.outcome(step) is Ok ==> state.outcome(step)->Ok_0.len() <= 1,
{
}

/// Once the auction has ended, an account that is neither the admin nor
/// the highest bidder and has put something in gets exactly that back,
/// and its entry is gone: any further withdrawal by it fails, after the end
/// with `NothingToWithdraw`. Whether the reserve was met plays no part.
pub proof fn law_refund_exactly_once(state: AuctionView, sender: Seq<char>, now: nat, later: nat)
    requires
        state.lifecycle.has_ended(now),
        sender != state.lifecycle.admin,
        !state.ledger.leads(sender),
        state.ledger.total_of(sender) > 0,
    ensures
        state.withdrawal(sender, now) == Ok::<TransferView, AuctionError>(
            TransferView { to: sender, amount: state.ledger.total_of(sender) },
        ),
        state.withdraw(sender, now).ledger.total_of(sender) == 0,
        state.withdraw(sender, now).withdrawal(sender, later) is Err,
        state.withdraw(sender, now).lifecycle.has_ended(later) ==> state.withdraw(
            sender,
            now,
        ).withdrawal(sender, later) == Err::<TransferView, AuctionError>(
            AuctionError::NothingToWithdraw,
        ),
{
}

/// In a sound auction the highest bidder never withdraws: every attempt
/// fails and changes nothing, after the end with `CannotWithdrawAsWinner`.
pub proof fn law_winner_never_withdraws(state: AuctionView, sender: Seq<char>, now: nat)
    requires
        state.sound(),
        state.ledger.leads(sender),
    ensures
        state.withdrawal(sender, now) is Err,
        state.withdraw(sender, now) == state,
        state.lifecycle.has_ended(now) ==> state.withdrawal(sender, now) == Err::<
            TransferView,
            AuctionError,
        >(AuctionError::CannotWithdrawAsWinner),
{
}

/// Whether every step of a run is made past the end time `end`.
pub open spec fn all_after(steps: Seq<Step>, end: nat) -> bool {
    forall|i: int| 0 <= i < steps.len() ==> (#[trigger] steps[i]).now > end
}

/// Once a started auction is past its end time, no step moves the lead,
/// and no step opens or raises an entry.
pub proof fn law_ledger_closed_after_end(state: AuctionView, steps: Seq<Step>)
    requires
        state.lifecycle.started,
        state.lifecycle.config is Some,
        all_after(steps, state.lifecycle.config->0.end_time),
    ensures
        state.run(steps).ledger.highest == state.ledger.highest,
        state.run(steps).lifecycle.config == state.lifecycle.config,
        state.run(steps).lifecycle.started,
        forall|account: Seq<char>|
            state.run(steps).ledger.total_of(account) == state.ledger.total_of(account) || (
            #[trigger] state.run(steps).ledger.total_of(account)) == 0,
    decreases steps.len(),
{
    if steps.len() > 0 {
        let next = state.apply(steps[0]);
        let rest = steps.drop_first();
        assert(steps[0].now > state.lifecycle.config->0.end_time);
        assert forall|i: int| 0 <= i < rest.len() implies (#[trigger] rest[i]).now
            > state.lifecycle.config->0.end_time by {
            assert(rest[i] == steps[i + 1]);
        }
        law_ledger_closed_after_end(next, rest);
        assert forall|account: Seq<char>|
            state.run(steps).ledger.total_of(account) == state.ledger.total_of(account) || (
            #[trigger] state.run(steps).ledger.total_of(account)) == 0 by {
            assert(next.run(rest).ledger.total_of(account) == next.ledger.total_of(account)
                || next.run(rest).ledger.total_of(account) == 0);
        }
    }
}

/// The highest bidder of a sound, ended auction is still the highest
/// bidder after any run of later steps, and still fails to withdraw with
/// `CannotWithdrawAsWinner` at any later time.
pub proof fn law_winner_never_withdraws_later(
    state: AuctionView,
    sender: Seq<char>,
    steps: Seq<Step>,
    later: nat,
)
    requires
        state.sound(),
        state.ledger.leads(sender),
        state.lifecycle.started,
        all_after(steps, state.lifecycle.config->0.end_time),
        later > state.lifecycle.config->0.end_time,
    ensures
        state.run(steps).ledger.leads(sender),
        state.run(steps).withdrawal(sender, later) == Err::<TransferView, AuctionError>(
            AuctionError::CannotWithdrawAsWinner,
        ),
{
    law_ledger_closed_after_end(state, steps);
    law_run_keeps_sound(state, steps);
    law_winner_never_withdraws(state.run(steps), sender, later);
}

/// An account that was refunded after the end stays without an entry
/// through any run of later steps, so that every later withdrawal by it
/// fails with `NothingToWithdraw`.
pub proof fn law_refunded_stays_refunded(
    state: AuctionView,
    sender: Seq<char>,
    now: nat,
    steps: Seq<Step>,
    later: nat,
)
    requires
        state.lifecycle.has_ended(now),
        sender != state.lifecycle.admin,
        !state.ledger.leads(sender),
        state.ledger.total_of(sender) > 0,
        all_after(steps, state.lifecycle.config->0.end_time),
        later > state.lifecycle.config->0.end_time,
    ensures
        state.withdraw(sender, now).run(steps).withdrawal(sender, later) == Err::<
            TransferView,
            AuctionError,
        >(AuctionError::NothingToWithdraw),
{
    let refunded = state.withdraw(sender, now);
    law_refund_exactly_once(state, sender, now, later);
    law_ledger_closed_after_end(refunded, steps);
    law_admin_is_fixed(refunded, steps);
}

/// Escrow is conserved in every step: what an account holds afterwards,
/// with what the step refunded to it, is what it held before with what
/// the step took from it as a bid.
pub proof fn law_escrow_conserved(state: AuctionView, step: Step, account: Seq<char>)
    ensures
        state.apply(step).ledger.total_of(account) + state.refunded(step, account)
            == state.ledger.total_of(account) + state.paid_in(step, account),
{
}

/// Escrow is conserved over every run of steps. On a fresh auction the
/// total of an account is therefore what it has bid less what it was
/// refunded.
pub proof fn law_escrow_conserved_in_run(state: AuctionView, steps: Seq<Step>, account: Seq<char>)
    ensures
        state.run(steps).ledger.total_of(account) + state.refunded_over(steps, account)
            == state.ledger.total_of(account) + state.paid_in_over(steps, account),
    decreases steps.len(),
{
    if steps.len() > 0 {
        law_escrow_conserved(state, steps[0], account);
        law_escrow_conserved_in_run(state.apply(steps[0]), steps.drop_first(), account);
    }
}

/// What the admin collects at settlement is the escrow of the highest
/// bidder: in a sound auction a withdrawal of the admin that goes through
/// pays out exactly the total of the highest bidder, whose entry stays in
/// the ledger.
pub proof fn law_settlement_pays_winners_escrow(state: AuctionView, now: nat)
    requires
        state.sound(),
        state.withdrawal(state.lifecycle.admin, now) is Ok,
    ensures
        state.ledger.highest is Some,
        state.withdrawal(state.lifecycle.admin, now)->Ok_0.to == state.lifecycle.admin,
        state.withdrawal(state.lifecycle.admin, now)->Ok_0.amount == state.ledger.total_of(
            state.ledger.highest->0.bidder,
        ),
        state.withdraw(state.lifecycle.admin, now).ledger == state.ledger,
{
}

/// A step reads and writes no entry but its sender's. Two auctions that
/// agree on the lifecycle, on the lead and on the sender's entry give the
/// same outcome and agree on all three afterwards; and the entries of all
/// other accounts stay as they were.
pub proof fn law_step_touches_sender_only(first: AuctionView, second: AuctionView, step: Step)
    requires
        first.lifecycle == second.lifecycle,
        first.ledger.highest == second.ledger.highest,
        first.ledger.totals.contains_key(step.sender) == second.ledger.totals.contains_key(
            step.sender,
        ),
        first.ledger.total_of(step.sender) == second.ledger.total_of(step.sender),
    ensures
        first.outcome(step) == second.outcome(step),
        first.apply(step).lifecycle == second.apply(step).lifecycle,
        first.apply(step).ledger.highest == second.apply(step).ledger.highest,
        first.apply(step).ledger.totals.contains_key(step.sender) == second.apply(
            step,
        ).ledger.totals.contains_key(step.sender),
        first.apply(step).ledger.total_of(step.sender) == second.apply(step).ledger.total_of(
            step.sender,
        ),
        forall|other: Seq<char>|
            other != step.sender ==> (#[trigger] first.apply(step).ledger.totals.contains_key(
                other,
            )) == first.ledger.totals.contains_key(other) && first.apply(
                step,
            ).ledger.total_of(other) == first.ledger.total_of(other),
{
}

/// The secret is disclosed exactly when the auction has ended, the
/// reserve is met and the asking account is the highest bidder; what is
/// disclosed is the configured secret.
pub proof fn law_secret_for_winner_only(state: AuctionView, account: Seq<char>, now: nat)
    ensures
        state.reveal_secret(account, now) is Ok <==> state.lifecycle.has_ended(now)
            && state.reserve_met() && state.ledger.leads(account),
        state.reveal_secret(account, now) is Ok ==> state.reveal_secret(account, now)
            == Ok::<Seq<char>, AuctionError>(state.lifecycle.config->0.secret),
{
}

/// While the reserve is not met, the answer to a request for the secret
/// does not depend on who asks: the highest bidder is refused in the same
/// way as anyone else.
pub proof fn law_unmet_reserve_hides_winner(
    state: AuctionView,
    account: Seq<char>,
    other: Seq<char>,
    now: nat,
)
    requires
        !state.reserve_met(),
    ensures
        state.reveal_secret(account, now) == state.reveal_secret(other, now),
        state.reveal_secret(account, now) is Err,
{
}

/// The public information changes only when the auction starts: every
/// other step, and every step that fails, leaves it as it was.
pub proof fn law_info_changes_only_at_start(state: AuctionView, step: Step)
    requires
        state.lifecycle.consistent(),
        !(step.call is StartAuction) || state.outcome(step) is Err,
    ensures
        state.apply(step).info() == state.info(),
{
}

/// Whether no step of a run starts the auction.
pub open spec fn none_starts(state: AuctionView, steps: Seq<Step>) -> bool
    decreases steps.len(),
{
    steps.len() == 0 || (state.apply(steps[0]).lifecycle.started == state.lifecycle.started
        && none_starts(state.apply(steps[0]), steps.drop_first()))
}

/// Requests for the public information give the same answer again and
/// again, whatever the time of each, as long as the auction is not started
/// between them: with no call between them, and also with calls that fail,
/// bid, withdraw or set the configuration.
pub proof fn law_info_repeats(state: AuctionView, steps: Seq<Step>, now: nat, later: nat)
    requires
        state.lifecycle.consistent(),
        none_starts(state, steps),
    ensures
        state.run(steps).answer(QueryView::AuctionInfo, later) == state.answer(
            QueryView::AuctionInfo,
            now,
        ),
    decreases steps.len(),
{
    if steps.len() > 0 {
        law_info_repeats(state.apply(steps[0]), steps.drop_first(), now, later);
    }
}

} // verus!
