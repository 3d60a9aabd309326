//! The command dispatcher: one command in, one state transition out.

use crate::decimal::{decimal_digits, lemma_decimal_round_trip, parse_decimal, parse_u64};
use crate::operation::{Operation, OperationView};
use crate::signal::{Signal, SignalView};
use crate::state::{BotState, BotStateView, SubmitError};
use vstd::prelude::*;

verus! {

/// Microseconds in a millisecond: the clock counts the former, timestamps
/// the latter.
pub const MICROS_PER_MILLI: u64 = 1000;

/// Why a command was rejected. A rejected command leaves the state as it
/// was.
#[derive(Clone, Copy, Debug, PartialEq, Eq, Structural)]
pub enum OperationError {
    /// The timestamp is not a decimal number that fits in 64 bits.
    InvalidTimestamp,
    /// The price is not a decimal number that fits in 64 bits.
    InvalidPrice,
    /// The prediction was refused by validation or for its order.
    Submit(SubmitError),
    /// The command would push a counter or the error sum past the end of
    /// its range.
    Overflow,
}

/// The part of the application that changes a bot's state.
#[derive(Debug, PartialEq, Eq)]
pub struct BotStateContract {
    pub state: BotState,
}

/// The time in milliseconds on a clock that shows `micros` microseconds.
pub open spec fn millis_of(micros: nat) -> nat {
    micros / (MICROS_PER_MILLI as nat)
}

impl BotStateView {
    /// The verdict on a command: whether it is carried out, and if not, why.
    ///
    /// A submit is refused for a malformed timestamp first, then for a
    /// malformed price, then as the state machine refuses the candidate. A
    /// resolve is refused for malformed numbers in the same order, and for
    /// overflow if it applies and the accuracy record has no room. Adding a
    /// follower is refused when the count is at the end of its range.
    /// Removing one always succeeds.
    pub open spec fn operation_verdict(self, operation: OperationView) -> Result<
        (),
        OperationError,
    > {
        match operation {
            OperationView::SubmitPrediction {
                timestamp,
                action,
                predicted_price_micro,
                confidence_bps,
                reasoning,
            } => {
                match (parse_decimal(timestamp), parse_decimal(predicted_price_micro)) {
                    (None, _) => Err(OperationError::InvalidTimestamp),
                    (Some(_), None) => Err(OperationError::InvalidPrice),
                    (Some(time), Some(price)) => {
                        match self.submit_verdict(
                            SignalView::pending(
                                time as nat,
                                action,
                                price as nat,
                                confidence_bps,
                                reasoning,
                            ),
                        ) {
                            Ok(_) => Ok(()),
                            Err(error) => Err(OperationError::Submit(error)),
                        }
                    },
                }
            },
            OperationView::ResolveSignal { timestamp, actual_price_micro } => {
                match (parse_decimal(timestamp), parse_decimal(actual_price_micro)) {
                    (None, _) => Err(OperationError::InvalidTimestamp),
                    (Some(_), None) => Err(OperationError::InvalidPrice),
                    (Some(time), Some(price)) => {
                        if self.resolve_fits(time as nat, price as nat) {
                            Ok(())
                        } else {
                            Err(OperationError::Overflow)
                        }
                    },
                }
            },
            OperationView::AddFollower => {
                if self.follower_count < u64::MAX {
                    Ok(())
                } else {
                    Err(OperationError::Overflow)
                }
            },
            OperationView::RemoveFollower => Ok(()),
        }
    }

    /// The state after a command that arrived when the clock showed
    /// `clock_micros` microseconds: the matching transition if the command
    /// is carried out, the same state if it is rejected.
    pub open spec fn after_operation(
        self,
        operation: OperationView,
        clock_micros: nat,
    ) -> BotStateView {
        if self.operation_verdict(operation) is Err {
            self
        } else {
            match operation {
                OperationView::SubmitPrediction {
                    timestamp,
                    action,
                    predicted_price_micro,
                    confidence_bps,
                    reasoning,
                } => self.after_submit(
                    SignalView::pending(
                        parse_decimal(timestamp)->0 as nat,
                        action,
                        parse_decimal(predicted_price_micro)->0 as nat,
                        confidence_bps,
                        reasoning,
                    ),
                ),
                OperationView::ResolveSignal { timestamp, actual_price_micro } => {
                    self.after_resolve(
                        parse_decimal(timestamp)->0 as nat,
                        parse_decimal(actual_price_micro)->0 as nat,
                        millis_of(clock_micros),
                    )
                },
                OperationView::AddFollower => self.after_add_follower(),
                OperationView::RemoveFollower => self.after_remove_follower(),
            }
        }
    }

    /// The timestamp under which a command enters the slot: that of a
    /// prediction that is accepted, and none for any other command.
    pub open spec fn accepted_timestamp(self, operation: OperationView) -> Option<nat> {
        match operation {
            OperationView::SubmitPrediction { timestamp, .. } => {
                if self.operation_verdict(operation) is Ok {
                    Some(parse_decimal(timestamp)->0 as nat)
                } else {
                    None
                }
            },
            _ => None,
        }
    }

    /// The state after each of `commands` was executed in turn. A command
    /// is an operation together with the clock at its arrival.
    pub open spec fn after_operations(self, commands: Seq<(OperationView, nat)>) -> BotStateView
        decreases commands.len(),
    {
        if commands.len() == 0 {
            self
        } else {
            self.after_operations(commands.drop_last()).after_operation(
                commands.last().0,
                commands.last().1,
            )
        }
    }

    /// The timestamps of the predictions that were accepted when each of
    /// `commands` was executed in turn, in the order of their acceptance.
    pub open spec fn accepted_timestamps(self, commands: Seq<(OperationView, nat)>) -> Seq<nat>
        decreases commands.len(),
    {
        if commands.len() == 0 {
            Seq::empty()
        } else {
            let earlier = self.accepted_timestamps(commands.drop_last());
            let state = self.after_operations(commands.drop_last());
            match state.accepted_timestamp(commands.last().0) {
                Some(timestamp) => earlier.push(timestamp),
                None => earlier,
            }
        }
    }
}

impl BotStateContract {
    /// A dispatcher over `state`.
    pub fn new(state: BotState) -> (contract: BotStateContract)
        ensures
            contract.state == state,
    {
        BotStateContract { state }
    }

    /// Sets the bot up under `bot_id`: no followers and a zeroed accuracy
    /// record. The signal slot is left as it is.
    pub fn instantiate(&mut self, bot_id: String)
        ensures
            final(self).state@ == (BotStateView {
                latest_signal: old(self).state@.latest_signal,
                ..BotStateView::initial(bot_id@)
            }),
            final(self).state.bot_id == bot_id,
            final(self).state.latest_signal == old(self).state.latest_signal,
    {
        self.state.bot_id = bot_id;
        self.state.follower_count = 0;
        self.state.accuracy_24h = Default::default();
    }

    /// Carries out one command, or rejects it and leaves the state as it
    /// was.
    ///
    /// `system_time_micros` is the clock at the time of the command, in
    /// microseconds; a resolution is stamped with it in milliseconds.
    ///
    /// * `SubmitPrediction` reads timestamp and price, builds the pending
    ///   signal and submits it: it must pass validation and be newer than
    ///   the slot's signal.
    /// * `ResolveSignal` reads timestamp and price and resolves the slot's
    ///   signal if the timestamp names it. A request that names no signal
    ///   succeeds and changes nothing.
    /// * `AddFollower` and `RemoveFollower` move the follower count by one,
    ///   never below zero.
    pub fn execute_operation(&mut self, operation: Operation, system_time_micros: u64) -> (verdict:
        Result<(), OperationError>)
        ensures
            verdict == old(self).state@.operation_verdict(operation@),
            final(self).state@ == old(self).state@.after_operation(
                operation@,
                system_time_micros as nat,
            ),
            verdict is Err ==> *final(self) == *old(self),
    {
        match operation {
            Operation::SubmitPrediction {
                timestamp,
                action,
                predicted_price_micro,
                confidence_bps,
                reasoning,
            } => {
                let time = match parse_u64(timestamp.as_str()) {
                    Some(time) => time,
                    None => {
                        return Err(OperationError::InvalidTimestamp);
                    },
                };
                let price = match parse_u64(predicted_price_micro.as_str()) {
                    Some(price) => price,
                    None => {
                        return Err(OperationError::InvalidPrice);
                    },
                };
                match self.state.submit(time, action, price, confidence_bps, reasoning) {
                    Ok(_) => Ok(()),
                    Err(error) => Err(OperationError::Submit(error)),
                }
            },
            Operation::ResolveSignal { timestamp, actual_price_micro } => {
                let time = match parse_u64(timestamp.as_str()) {
                    Some(time) => time,
                    None => {
                        return Err(OperationError::InvalidTimestamp);
                    },
                };
                let price = match parse_u64(actual_price_micro.as_str()) {
                    Some(price) => price,
                    None => {
                        return Err(OperationError::InvalidPrice);
                    },
                };
                if !self.state.resolve_fits(time, price) {
                    return Err(OperationError::Overflow);
                }
                let now = system_time_micros / MICROS_PER_MILLI;
                self.state.resolve(time, price, now);
                Ok(())
            },
            Operation::AddFollower => {
                if self.state.follower_count == u64::MAX {
                    return Err(OperationError::Overflow);
                }
                self.state.add_follower();
                Ok(())
            },
            Operation::RemoveFollower => {
                self.state.remove_follower();
                Ok(())
            },
        }
    }
}

/// The command built from a signal submits that signal: executing
/// `Operation::submit(signal)` has the verdict and the effect of submitting
/// the pending signal with `signal`'s fields.
pub proof fn lemma_submit_command_carries_signal(
    state: BotStateView,
    signal: Signal,
    clock_micros: nat,
)
    ensures
        ({
            let command = OperationView::SubmitPrediction {
                timestamp: decimal_digits(signal.timestamp as nat),
                action: signal.action,
                predicted_price_micro: decimal_digits(signal.predicted_price_micro as nat),
                confidence_bps: signal.confidence_bps as nat,
                reasoning: signal.reasoning@,
            };
            let candidate = SignalView::pending(
                signal.timestamp as nat,
                signal.action,
                signal.predicted_price_micro as nat,
                signal.confidence_bps as nat,
                signal.reasoning@,
            );
            &&& state.operation_verdict(command) is Ok <==> state.submit_verdict(candidate) is Ok
            &&& state.after_operation(command, clock_micros) == state.after_submit(candidate)
        }),
{
    lemma_decimal_round_trip(signal.timestamp as nat);
    lemma_decimal_round_trip(signal.predicted_price_micro as nat);
}

/// Each of `timestamps` is later than the one before it.
pub open spec fn each_later(timestamps: Seq<nat>) -> bool {
    forall|i: int, j: int| 0 <= i < j < timestamps.len() ==> timestamps[i] < timestamps[j]
}

/// A rejected command changes nothing, and no command but an accepted
/// prediction changes the timestamp in the slot.
pub proof fn lemma_operation_keeps_slot_time(
    state: BotStateView,
    operation: OperationView,
    clock_micros: nat,
)
    ensures
        state.operation_verdict(operation) is Err ==> state.after_operation(
            operation,
            clock_micros,
        ) == state,
        match state.accepted_timestamp(operation) {
            Some(timestamp) => {
                &&& state.after_operation(operation, clock_micros).latest_signal matches Some(
                    signal,
                )
                &&& signal.timestamp == timestamp
                &&& state.latest_signal matches Some(previous) ==> previous.timestamp < timestamp
            },
            None => match state.latest_signal {
                Some(previous) => {
                    &&& state.after_operation(operation, clock_micros).latest_signal matches Some(
                        signal,
                    )
                    &&& signal.timestamp == previous.timestamp
                },
                None => state.after_operation(operation, clock_micros).latest_signal is None,
            },
        },
{
}

/// Accepted timestamps only ever grow, whatever else happens in between.
///
/// When any sequence of commands is executed in turn from any state, the
/// predictions that are accepted carry strictly increasing timestamps, each
/// greater than that of the signal the slot held at the start; and the slot
/// ends up with the timestamp of the last accepted prediction, or with the
/// timestamp it had at the start if none was accepted.
pub proof fn lemma_accepted_commands_increase(
    state: BotStateView,
    commands: Seq<(OperationView, nat)>,
)
    ensures
        each_later(state.accepted_timestamps(commands)),
        forall|i: int|
            0 <= i < state.accepted_timestamps(commands).len() && state.latest_signal is Some
                ==> state.latest_signal->0.timestamp < #[trigger] state.accepted_timestamps(
                commands,
            )[i],
        state.accepted_timestamps(commands).len() > 0 ==> {
            &&& state.after_operations(commands).latest_signal matches Some(signal)
            &&& signal.timestamp == state.accepted_timestamps(commands).last()
        },
        state.accepted_timestamps(commands).len() == 0 ==> match state.latest_signal {
            Some(previous) => {
                &&& state.after_operations(commands).latest_signal matches Some(signal)
                &&& signal.timestamp == previous.timestamp
            },
            None => state.after_operations(commands).latest_signal is None,
        },
    decreases commands.len(),
{
    if commands.len() > 0 {
        let earlier = commands.drop_last();
        lemma_accepted_commands_increase(state, earlier);
        lemma_operation_keeps_slot_time(
            state.after_operations(earlier),
            commands.last().0,
            commands.last().1,
        );
    }
}

/// A resolve command whose timestamp is not that of the slot's signal is
/// carried out without effect: it succeeds, and accuracy record and stored
/// signal stay as they were.
pub proof fn lemma_mismatched_command_changes_nothing(
    state: BotStateView,
    timestamp: Seq<char>,
    actual_price_micro: Seq<char>,
    clock_micros: nat,
)
    requires
        parse_decimal(timestamp) is Some,
        parse_decimal(actual_price_micro) is Some,
        !state.resolve_applies(parse_decimal(timestamp)->0 as nat),
    ensures
        ({
            let command = OperationView::ResolveSignal { timestamp, actual_price_micro };
            &&& state.operation_verdict(command) is Ok
            &&& state.after_operation(command, clock_micros) == state
        }),
{
}

} // verus!
