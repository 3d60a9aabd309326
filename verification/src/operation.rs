//! The commands a bot's state accepts.

use crate::decimal::{decimal_digits, format_u64};
use crate::signal::{Action, Signal};
use vstd::prelude::*;

verus! {

/// Operations that can be performed on the bot state.
///
/// Timestamps and prices travel as decimal text, so that a transport with
/// narrow integers cannot truncate them.
#[derive(Debug, PartialEq, Eq)]
pub enum Operation {
    /// Submit a new prediction signal.
    SubmitPrediction {
        /// Milliseconds since the epoch, in decimal.
        timestamp: String,
        action: Action,
        /// Predicted price in micro-units, in decimal.
        predicted_price_micro: String,
        /// Confidence in basis points, `0..=10000`.
        confidence_bps: u64,
        reasoning: String,
    },
    /// Resolve the latest prediction with the price that was observed.
    ResolveSignal {
        /// Timestamp of the prediction to resolve, in decimal.
        timestamp: String,
        /// Observed price in micro-units, in decimal.
        actual_price_micro: String,
    },
    /// Count one more follower.
    AddFollower,
    /// Count one follower fewer.
    RemoveFollower,
}

/// Mathematical model of an [`Operation`].
pub enum OperationView {
    SubmitPrediction {
        timestamp: Seq<char>,
        action: Action,
        predicted_price_micro: Seq<char>,
        confidence_bps: nat,
        reasoning: Seq<char>,
    },
    ResolveSignal { timestamp: Seq<char>, actual_price_micro: Seq<char> },
    AddFollower,
    RemoveFollower,
}

impl View for Operation {
    type V = OperationView;

    open spec fn view(&self) -> OperationView {
        match self {
            Operation::SubmitPrediction {
                timestamp,
                action,
                predicted_price_micro,
                confidence_bps,
                reasoning,
            } => OperationView::SubmitPrediction {
                timestamp: timestamp@,
                action: *action,
                predicted_price_micro: predicted_price_micro@,
                confidence_bps: *confidence_bps as nat,
                reasoning: reasoning@,
            },
            Operation::ResolveSignal { timestamp, actual_price_micro } => {
                OperationView::ResolveSignal {
                    timestamp: timestamp@,
                    actual_price_micro: actual_price_micro@,
                }
            },
            Operation::AddFollower => OperationView::AddFollower,
            Operation::RemoveFollower => OperationView::RemoveFollower,
        }
    }
}

impl Operation {
    /// The command that submits `signal` as a new prediction: its timestamp
    /// and predicted price in their shortest decimal form, the other fields
    /// as they are. The signal's outcome, if it has one, is not part of the
    /// command.
    pub fn submit(signal: &Signal) -> (operation: Operation)
        ensures
            operation@ == (OperationView::SubmitPrediction {
                timestamp: decimal_digits(signal.timestamp as nat),
                action: signal.action,
                predicted_price_micro: decimal_digits(signal.predicted_price_micro as nat),
                confidence_bps: signal.confidence_bps as nat,
                reasoning: signal.reasoning@,
            }),
    {
        Operation::SubmitPrediction {
            timestamp: format_u64(signal.timestamp),
            action: signal.action,
            predicted_price_micro: format_u64(signal.predicted_price_micro),
            confidence_bps: signal.confidence_bps,
            reasoning: signal.reasoning.clone(),
        }
    }
}

} // verus!
