//! Prediction lifecycle and accuracy aggregation for a trading bot.
//!
//! A bot submits price predictions ("signals"), each of which is later
//! resolved with the price that was observed. This crate holds the rules of
//! that lifecycle: which candidates are admitted, how the single signal slot
//! moves between empty, pending and resolved, and how each resolution is
//! folded into a running record of directional accuracy and error.

pub mod contract;
pub mod decimal;
pub mod metrics;
pub mod operation;
pub mod reply;
pub mod service;
pub mod signal;
pub mod state;
pub mod text;

pub use contract::{BotStateContract, OperationError};
pub use metrics::{AccuracyMetrics, AccuracyMetricsView};
pub use operation::{Operation, OperationView};
pub use reply::{LlmReply, LlmReplyView};
pub use service::{BotStateService, InferenceError, PredictionError, PredictionPlan};
pub use signal::{Action, Field, Signal, SignalView, ValidationError};
pub use state::{BotState, BotStateView, Resolution, SlotState, SubmitError};

use vstd::prelude::*;

verus! {

/// Marker for the application's interface: its commands are [`Operation`]s
/// and are answered with `()`.
#[derive(Clone, Copy, Debug, PartialEq, Eq)]
pub struct BotStateAbi;

} // verus!
