//! The state of one bot and the transitions of its single signal slot.
//!
//! The slot is empty until the first prediction is accepted, holds a pending
//! signal until that signal is resolved, and is overwritten by the next
//! accepted prediction. The accuracy record changes only when a signal is
//! resolved.

use crate::metrics::{AccuracyMetrics, AccuracyMetricsView};
use crate::signal::{Action, Signal, SignalView, ValidationError};
use vstd::prelude::*;

verus! {

/// What the signal slot holds.
#[derive(Clone, Copy, Debug, PartialEq, Eq, Structural)]
pub enum SlotState {
    /// No prediction has been accepted yet.
    Empty,
    /// The latest prediction waits for its outcome.
    Pending,
    /// The latest prediction has its outcome.
    Resolved,
}

/// Why a prediction was not accepted. The state is unchanged in either case.
#[derive(Clone, Copy, Debug, PartialEq, Eq, Structural)]
pub enum SubmitError {
    /// The candidate breaks one of the admission rules.
    Validation(ValidationError),
    /// The candidate is not newer than the signal in the slot.
    OutOfOrder,
}

/// What a resolve request did.
#[derive(Clone, Copy, Debug, PartialEq, Eq, Structural)]
pub enum Resolution {
    /// The request named the signal in the slot: the outcome was attached
    /// and folded into the accuracy record.
    Applied,
    /// The slot holds a signal with another timestamp; nothing changed.
    TimestampMismatch,
    /// The slot is empty; nothing changed.
    NoSignal,
}

/// Everything that is kept for one bot.
#[derive(Debug, PartialEq, Eq)]
pub struct BotState {
    pub bot_id: String,
    /// The latest accepted prediction; older ones are not kept.
    pub latest_signal: Option<Signal>,
    pub accuracy_24h: AccuracyMetrics,
    pub follower_count: u64,
}

/// Mathematical model of a [`BotState`].
pub struct BotStateView {
    pub bot_id: Seq<char>,
    pub latest_signal: Option<SignalView>,
    pub accuracy_24h: AccuracyMetricsView,
    pub follower_count: nat,
}

/// The price a resolved signal's direction is judged against. The slot keeps
/// no earlier price, so the signal's own prediction serves as the reference.
pub open spec fn reference_price(signal: SignalView) -> nat {
    signal.predicted_price_micro
}

/// Timestamps of `signals`, each later than the one before it.
pub open spec fn strictly_increasing(signals: Seq<SignalView>) -> bool {
    forall|i: int, j: int|
        0 <= i < j < signals.len() ==> signals[i].timestamp < signals[j].timestamp
}

impl BotStateView {
    /// The state a bot starts in: empty slot, zeroed record, no followers.
    pub open spec fn initial(bot_id: Seq<char>) -> BotStateView {
        BotStateView {
            bot_id,
            latest_signal: None,
            accuracy_24h: AccuracyMetricsView::zero(),
            follower_count: 0,
        }
    }

    pub open spec fn slot_state(self) -> SlotState {
        match self.latest_signal {
            None => SlotState::Empty,
            Some(signal) => if signal.is_resolved() {
                SlotState::Resolved
            } else {
                SlotState::Pending
            },
        }
    }

    /// Whether `candidate` is newer than whatever the slot holds.
    pub open spec fn is_newer(self, candidate: SignalView) -> bool {
        match self.latest_signal {
            None => true,
            Some(latest) => candidate.timestamp > latest.timestamp,
        }
    }

    /// The verdict on a submitted candidate: its validation failure if it
    /// has one, else the ordering failure if it is not newer, else success.
    pub open spec fn submit_verdict(self, candidate: SignalView) -> Result<(), SubmitError> {
        match candidate.validation() {
            Err(error) => Err(SubmitError::Validation(error)),
            Ok(_) => if self.is_newer(candidate) {
                Ok(())
            } else {
                Err(SubmitError::OutOfOrder)
            },
        }
    }

    /// The state after `candidate` was submitted: the candidate replaces the
    /// slot's content if it is accepted, and nothing changes if it is not.
    pub open spec fn after_submit(self, candidate: SignalView) -> BotStateView {
        if self.submit_verdict(candidate) is Ok {
            BotStateView { latest_signal: Some(candidate), ..self }
        } else {
            self
        }
    }

    /// Whether a resolve request for `timestamp` names the slot's signal.
    pub open spec fn resolve_applies(self, timestamp: nat) -> bool {
        self.latest_signal matches Some(signal) && signal.timestamp == timestamp
    }

    /// What a resolve request for `timestamp` does.
    pub open spec fn resolution(self, timestamp: nat) -> Resolution {
        match self.latest_signal {
            None => Resolution::NoSignal,
            Some(signal) => if signal.timestamp == timestamp {
                Resolution::Applied
            } else {
                Resolution::TimestampMismatch
            },
        }
    }

    /// The slot's signal with `actual` attached, for a request that applies.
    pub open spec fn resolved_signal(self, actual: nat) -> SignalView
        recommends
            self.latest_signal is Some,
    {
        self.latest_signal->0.resolved_with(actual)
    }

    /// Whether the accuracy record can take the outcome `actual` of the
    /// slot's signal, or the request for `timestamp` does not apply anyway.
    pub open spec fn resolve_fits(self, timestamp: nat, actual: nat) -> bool {
        self.resolve_applies(timestamp) ==> self.accuracy_24h.has_room_for(
            self.resolved_signal(actual),
        )
    }

    /// The state after a resolve request: if it names the slot's signal, the
    /// signal carries its outcome and the record has it folded in, judged
    /// against the signal's reference price; otherwise nothing changes.
    pub open spec fn after_resolve(self, timestamp: nat, actual: nat, now: nat) -> BotStateView {
        if self.resolve_applies(timestamp) {
            let resolved = self.resolved_signal(actual);
            BotStateView {
                latest_signal: Some(resolved),
                accuracy_24h: self.accuracy_24h.fold(resolved, reference_price(resolved), now),
                ..self
            }
        } else {
            self
        }
    }

    pub open spec fn after_add_follower(self) -> BotStateView {
        BotStateView { follower_count: self.follower_count + 1, ..self }
    }

    /// One follower fewer, and none fewer than zero.
    pub open spec fn after_remove_follower(self) -> BotStateView {
        if self.follower_count > 0 {
            BotStateView { follower_count: (self.follower_count - 1) as nat, ..self }
        } else {
            self
        }
    }

    /// The state after each of `candidates` was submitted in turn.
    pub open spec fn after_submits(self, candidates: Seq<SignalView>) -> BotStateView
        decreases candidates.len(),
    {
        if candidates.len() == 0 {
            self
        } else {
            self.after_submits(candidates.drop_last()).after_submit(candidates.last())
        }
    }

    /// Those of `candidates` that were accepted when each was submitted in
    /// turn, in the order of their submission.
    pub open spec fn accepted_submits(self, candidates: Seq<SignalView>) -> Seq<SignalView>
        decreases candidates.len(),
    {
        if candidates.len() == 0 {
            Seq::empty()
        } else {
            let earlier = self.accepted_submits(candidates.drop_last());
            let state = self.after_submits(candidates.drop_last());
            if state.submit_verdict(candidates.last()) is Ok {
                earlier.push(candidates.last())
            } else {
                earlier
            }
        }
    }
}

impl View for BotState {
    type V = BotStateView;

    open spec fn view(&self) -> BotStateView {
        BotStateView {
            bot_id: self.bot_id@,
            latest_signal: match self.latest_signal {
                Some(signal) => Some(signal@),
                None => None,
            },
            accuracy_24h: self.accuracy_24h@,
            follower_count: self.follower_count as nat,
        }
    }
}

impl BotState {
    /// The state of a bot that has just been set up under `bot_id`.
    pub fn new(bot_id: String) -> (state: BotState)
        ensures
            state@ == BotStateView::initial(bot_id@),
            state.bot_id == bot_id,
            state@.slot_state() == SlotState::Empty,
    {
        BotState {
            bot_id,
            latest_signal: None,
            accuracy_24h: AccuracyMetrics::default(),
            follower_count: 0,
        }
    }

    /// Which of its three states the signal slot is in.
    pub fn slot_state(&self) -> (slot: SlotState)
        ensures
            slot == self@.slot_state(),
    {
        match &self.latest_signal {
            None => SlotState::Empty,
            Some(signal) => if signal.is_resolved() {
                SlotState::Resolved
            } else {
                SlotState::Pending
            },
        }
    }

    /// Submits a prediction made at `timestamp`.
    ///
    /// The candidate is the pending signal with the given fields. It is
    /// accepted exactly when it passes validation and its timestamp is
    /// greater than that of the signal in the slot, if there is one. An
    /// accepted candidate replaces the slot's content. A refused one changes
    /// nothing: a validation failure is reported before an ordering failure.
    pub fn submit(
        &mut self,
        timestamp: u64,
        action: Action,
        predicted_price_micro: u64,
        confidence_bps: u64,
        reasoning: String,
    ) -> (verdict: Result<(), SubmitError>)
        ensures
            ({
                let candidate = SignalView::pending(
                    timestamp as nat,
                    action,
                    predicted_price_micro as nat,
                    confidence_bps as nat,
                    reasoning@,
                );
                &&& verdict == old(self)@.submit_verdict(candidate)
                &&& final(self)@ == old(self)@.after_submit(candidate)
                &&& verdict is Ok <==> candidate.is_valid() && old(self)@.is_newer(candidate)
                &&& verdict is Ok ==> final(self)@.latest_signal == Some(candidate)
            }),
            verdict is Ok ==> final(self)@.slot_state() == SlotState::Pending,
            verdict is Err ==> *final(self) == *old(self),
            final(self).bot_id == old(self).bot_id,
            final(self).accuracy_24h == old(self).accuracy_24h,
            final(self).follower_count == old(self).follower_count,
    {
        let candidate = Signal::pending(
            timestamp,
            action,
            predicted_price_micro,
            confidence_bps,
            reasoning,
        );
        match candidate.validate() {
            Err(error) => {
                return Err(SubmitError::Validation(error));
            },
            Ok(_) => {},
        }
        match &self.latest_signal {
            Some(latest) => {
                if candidate.timestamp <= latest.timestamp {
                    return Err(SubmitError::OutOfOrder);
                }
            },
            None => {},
        }
        self.latest_signal = Some(candidate);
        Ok(())
    }

    /// Whether a resolve request can be carried out without overflowing the
    /// accuracy record. Always true of a request that does not apply.
    pub fn resolve_fits(&self, timestamp: u64, actual_price_micro: u64) -> (fits: bool)
        ensures
            fits == self@.resolve_fits(timestamp as nat, actual_price_micro as nat),
    {
        match &self.latest_signal {
            Some(signal) => {
                if signal.timestamp == timestamp {
                    let mut resolved = signal.clone();
                    resolved.actual_price_micro = Some(actual_price_micro);
                    self.accuracy_24h.has_room_for(&resolved)
                } else {
                    true
                }
            },
            None => true,
        }
    }

    /// Resolves the signal in the slot.
    ///
    /// If the slot holds a signal whose timestamp equals `timestamp`, the
    /// signal gets `actual_price_micro` as its outcome and is folded into
    /// the accuracy record at time `now`, judged against its own predicted
    /// price. Otherwise the request is dropped: the state stays exactly as
    /// it was and the result says why. A signal that is already resolved is
    /// resolved again, and counted again.
    pub fn resolve(&mut self, timestamp: u64, actual_price_micro: u64, now: u64) -> (outcome:
        Resolution)
        requires
            old(self)@.resolve_fits(timestamp as nat, actual_price_micro as nat),
        ensures
            outcome == old(self)@.resolution(timestamp as nat),
            outcome == Resolution::Applied <==> old(self)@.resolve_applies(timestamp as nat),
            final(self)@ == old(self)@.after_resolve(
                timestamp as nat,
                actual_price_micro as nat,
                now as nat,
            ),
            outcome != Resolution::Applied ==> *final(self) == *old(self),
            outcome == Resolution::Applied ==> final(self)@.slot_state() == SlotState::Resolved,
            final(self).bot_id == old(self).bot_id,
            final(self).follower_count == old(self).follower_count,
    {
        let resolved = match &self.latest_signal {
            None => {
                return Resolution::NoSignal;
            },
            Some(signal) => {
                if signal.timestamp != timestamp {
                    return Resolution::TimestampMismatch;
                }
                let mut resolved = signal.clone();
                resolved.actual_price_micro = Some(actual_price_micro);
                resolved
            },
        };
        let previous_price_micro = resolved.predicted_price_micro;
        self.accuracy_24h.update(&resolved, previous_price_micro, now);
        self.latest_signal = Some(resolved);
        Resolution::Applied
    }

    /// Counts one more follower.
    pub fn add_follower(&mut self)
        requires
            old(self).follower_count < u64::MAX,
        ensures
            final(self)@ == old(self)@.after_add_follower(),
            final(self).follower_count == old(self).follower_count + 1,
            final(self).bot_id == old(self).bot_id,
            final(self).latest_signal == old(self).latest_signal,
            final(self).accuracy_24h == old(self).accuracy_24h,
    {
        self.follower_count = self.follower_count + 1;
    }

    /// Counts one follower fewer; a count of zero stays zero.
    pub fn remove_follower(&mut self)
        ensures
            final(self)@ == old(self)@.after_remove_follower(),
            old(self).follower_count > 0 ==> final(self).follower_count == old(self).follower_count
                - 1,
            old(self).follower_count == 0 ==> final(self).follower_count == 0,
            final(self).bot_id == old(self).bot_id,
            final(self).latest_signal == old(self).latest_signal,
            final(self).accuracy_24h == old(self).accuracy_24h,
    {
        if self.follower_count > 0 {
            self.follower_count = self.follower_count - 1;
        }
    }
}

/// Accepted timestamps only ever grow.
///
/// When any sequence of candidates is submitted in turn to any state, the
/// accepted ones carry strictly increasing timestamps, each greater than
/// that of the signal the slot held at the start, and the slot ends up
/// holding the last accepted one (or what it held at the start, if none was
/// accepted).
pub proof fn lemma_accepted_timestamps_increase(state: BotStateView, candidates: Seq<SignalView>)
    ensures
        strictly_increasing(state.accepted_submits(candidates)),
        forall|i: int|
            0 <= i < state.accepted_submits(candidates).len() ==> state.is_newer(
                #[trigger] state.accepted_submits(candidates)[i],
            ),
        state.accepted_submits(candidates).len() == 0 ==> state.after_submits(candidates)
            == state,
        state.accepted_submits(candidates).len() > 0 ==> state.after_submits(
            candidates,
        ).latest_signal == Some(state.accepted_submits(candidates).last()),
    decreases candidates.len(),
{
    if candidates.len() > 0 {
        lemma_accepted_timestamps_increase(state, candidates.drop_last());
    }
}

/// A submit that is not newer than the slot's signal is always refused and
/// leaves the state unchanged.
pub proof fn lemma_stale_submit_rejected(state: BotStateView, candidate: SignalView)
    requires
        state.latest_signal matches Some(latest) && candidate.timestamp <= latest.timestamp,
    ensures
        state.submit_verdict(candidate) is Err,
        state.after_submit(candidate) == state,
{
}

/// A resolve request whose timestamp differs from that of the slot's signal
/// leaves the accuracy record and the stored signal unchanged.
pub proof fn lemma_mismatched_resolve_changes_nothing(
    state: BotStateView,
    timestamp: nat,
    actual: nat,
    now: nat,
)
    requires
        !state.resolve_applies(timestamp),
    ensures
        state.after_resolve(timestamp, actual, now) == state,
        state.after_resolve(timestamp, actual, now).accuracy_24h == state.accuracy_24h,
        state.after_resolve(timestamp, actual, now).latest_signal == state.latest_signal,
{
}

/// Nothing keeps a resolved signal from being resolved again: a second
/// request for the same timestamp applies as the first did and folds the
/// outcome into the record once more.
pub proof fn lemma_resolve_twice_counts_twice(
    state: BotStateView,
    timestamp: nat,
    actual: nat,
    now: nat,
)
    requires
        state.resolve_applies(timestamp),
    ensures
        ({
            let once = state.after_resolve(timestamp, actual, now);
            let twice = once.after_resolve(timestamp, actual, now);
            let resolved = state.resolved_signal(actual);
            &&& once.resolve_applies(timestamp)
            &&& once.latest_signal == Some(resolved)
            &&& twice.latest_signal == Some(resolved)
            &&& twice.accuracy_24h == state.accuracy_24h.fold(
                resolved,
                reference_price(resolved),
                now,
            ).fold(resolved, reference_price(resolved), now)
            &&& twice.accuracy_24h.total_predictions == state.accuracy_24h.total_predictions + 2
        }),
{
}

/// A resolution attaches the outcome and touches nothing else of the
/// signal: timestamp, action, prediction, confidence and reasoning stay as
/// they were submitted.
pub proof fn lemma_resolve_keeps_the_prediction(
    state: BotStateView,
    timestamp: nat,
    actual: nat,
    now: nat,
)
    requires
        state.latest_signal is Some,
    ensures
        ({
            let before = state.latest_signal->0;
            let after = state.after_resolve(timestamp, actual, now).latest_signal;
            &&& after matches Some(signal)
            &&& signal.timestamp == before.timestamp
            &&& signal.action == before.action
            &&& signal.predicted_price_micro == before.predicted_price_micro
            &&& signal.confidence_bps == before.confidence_bps
            &&& signal.reasoning == before.reasoning
            &&& signal.actual_price_micro == if state.resolve_applies(timestamp) {
                Some(actual)
            } else {
                before.actual_price_micro
            }
        }),
{
}

} // verus!
