//! Prediction signals: the value a bot submits, the rules a candidate must
//! meet before it is stored, and the rule by which a resolved signal is
//! judged right or wrong about the direction of the move.
//!
//! Prices are whole numbers of micro-units (one millionth of the quote
//! currency) and confidence is a whole number of basis points, so every rule
//! here is exact integer arithmetic.

use vstd::prelude::*;
use vstd::string::*;

verus! {

/// Largest accepted confidence: 10000 basis points, i.e. certainty.
pub const MAX_CONFIDENCE_BPS: u64 = 10_000;

/// Largest accepted length of the reasoning text, in characters.
pub const MAX_REASONING_CHARS: usize = 512;

/// A `Hold` is right when the price moved by at most one part in this many
/// of the reference price, i.e. by at most 2%.
pub const HOLD_BAND_DIVISOR: u64 = 50;

/// The direction a prediction calls for.
#[derive(Clone, Copy, Debug, PartialEq, Eq, Structural)]
pub enum Action {
    Buy,
    Sell,
    Hold,
}

/// The part of a signal that a validation failure is about.
#[derive(Clone, Copy, Debug, PartialEq, Eq, Structural)]
pub enum Field {
    Confidence,
    PredictedPrice,
    Reasoning,
}

/// Why a candidate signal was refused.
#[derive(Clone, Copy, Debug, PartialEq, Eq, Structural)]
pub enum ValidationError {
    /// A numeric field lies outside the range it is allowed.
    OutOfRange { field: Field },
    /// A text field holds more than `max` characters.
    TooLong { field: Field, max: usize },
}

/// One prediction event.
///
/// The signal is pending while `actual_price_micro` is `None` and resolved
/// once it holds the observed price.
#[derive(Debug, PartialEq, Eq)]
pub struct Signal {
    /// Milliseconds since the epoch.
    pub timestamp: u64,
    pub action: Action,
    /// Predicted price in micro-units.
    pub predicted_price_micro: u64,
    /// Confidence in basis points, `0..=10000` for a valid signal.
    pub confidence_bps: u64,
    pub reasoning: String,
    /// Observed price in micro-units, once known.
    pub actual_price_micro: Option<u64>,
}

/// Mathematical model of a [`Signal`].
pub struct SignalView {
    pub timestamp: nat,
    pub action: Action,
    pub predicted_price_micro: nat,
    pub confidence_bps: nat,
    pub reasoning: Seq<char>,
    pub actual_price_micro: Option<nat>,
}

/// Distance between two prices.
pub open spec fn price_gap(a: nat, b: nat) -> nat {
    if a >= b {
        (a - b) as nat
    } else {
        (b - a) as nat
    }
}

/// Whether an observed price agrees with the direction `action` called for,
/// judged against `reference`.
///
/// `Buy` is right when the price did not fall, `Sell` when it did not rise,
/// and `Hold` when it stayed within 2% of the reference, bounds included:
/// `|actual - reference| / reference <= 1/50`. A zero reference has no such
/// band, so no `Hold` is right against it.
pub open spec fn direction_matches(action: Action, actual: nat, reference: nat) -> bool {
    match action {
        Action::Buy => actual >= reference,
        Action::Sell => actual <= reference,
        Action::Hold => reference > 0 && HOLD_BAND_DIVISOR * price_gap(actual, reference)
            <= reference,
    }
}

impl Field {
    /// The field's name as it is reported to callers.
    pub open spec fn spec_name(self) -> Seq<char> {
        match self {
            Field::Confidence => "confidence"@,
            Field::PredictedPrice => "predicted_price"@,
            Field::Reasoning => "reasoning"@,
        }
    }

    /// The field's name as it is reported to callers.
    pub fn name(self) -> (text: &'static str)
        ensures
            text@ == self.spec_name(),
    {
        match self {
            Field::Confidence => "confidence",
            Field::PredictedPrice => "predicted_price",
            Field::Reasoning => "reasoning",
        }
    }
}

impl ValidationError {
    /// The field the failure is about.
    pub open spec fn spec_field(self) -> Field {
        match self {
            ValidationError::OutOfRange { field } => field,
            ValidationError::TooLong { field, .. } => field,
        }
    }

    /// The field the failure is about.
    pub fn field(&self) -> (field: Field)
        ensures
            field == self.spec_field(),
    {
        match self {
            ValidationError::OutOfRange { field } => *field,
            ValidationError::TooLong { field, .. } => *field,
        }
    }
}

impl SignalView {
    /// The pending signal with the given fields.
    pub open spec fn pending(
        timestamp: nat,
        action: Action,
        predicted_price_micro: nat,
        confidence_bps: nat,
        reasoning: Seq<char>,
    ) -> SignalView {
        SignalView {
            timestamp,
            action,
            predicted_price_micro,
            confidence_bps,
            reasoning,
            actual_price_micro: None,
        }
    }

    pub open spec fn confidence_in_range(self) -> bool {
        self.confidence_bps <= MAX_CONFIDENCE_BPS
    }

    pub open spec fn price_is_positive(self) -> bool {
        self.predicted_price_micro > 0
    }

    pub open spec fn reasoning_fits(self) -> bool {
        self.reasoning.len() <= MAX_REASONING_CHARS
    }

    /// The verdict of validation: the first rule that fails, in the order
    /// confidence, price, reasoning.
    pub open spec fn validation(self) -> Result<(), ValidationError> {
        if !self.confidence_in_range() {
            Err(ValidationError::OutOfRange { field: Field::Confidence })
        } else if !self.price_is_positive() {
            Err(ValidationError::OutOfRange { field: Field::PredictedPrice })
        } else if !self.reasoning_fits() {
            Err(ValidationError::TooLong { field: Field::Reasoning, max: MAX_REASONING_CHARS })
        } else {
            Ok(())
        }
    }

    pub open spec fn is_valid(self) -> bool {
        self.confidence_in_range() && self.price_is_positive() && self.reasoning_fits()
    }

    pub open spec fn is_pending(self) -> bool {
        self.actual_price_micro is None
    }

    pub open spec fn is_resolved(self) -> bool {
        self.actual_price_micro is Some
    }

    /// The same signal with `actual` attached as its outcome.
    pub open spec fn resolved_with(self, actual: nat) -> SignalView {
        SignalView { actual_price_micro: Some(actual), ..self }
    }

    /// Directional verdict against `reference`; `None` while pending.
    pub open spec fn directionally_correct(self, reference: nat) -> Option<bool> {
        match self.actual_price_micro {
            Some(actual) => Some(direction_matches(self.action, actual, reference)),
            None => None,
        }
    }

    /// Square of the distance between prediction and outcome, in
    /// micro-units squared; zero while pending.
    pub open spec fn squared_error(self) -> nat {
        match self.actual_price_micro {
            Some(actual) => price_gap(self.predicted_price_micro, actual) * price_gap(
                self.predicted_price_micro,
                actual,
            ),
            None => 0,
        }
    }
}

impl View for Signal {
    type V = SignalView;

    open spec fn view(&self) -> SignalView {
        SignalView {
            timestamp: self.timestamp as nat,
            action: self.action,
            predicted_price_micro: self.predicted_price_micro as nat,
            confidence_bps: self.confidence_bps as nat,
            reasoning: self.reasoning@,
            actual_price_micro: match self.actual_price_micro {
                Some(actual) => Some(actual as nat),
                None => None,
            },
        }
    }
}

impl Clone for Signal {
    fn clone(&self) -> (copy: Self)
        ensures
            copy == *self,
    {
        Signal {
            timestamp: self.timestamp,
            action: self.action,
            predicted_price_micro: self.predicted_price_micro,
            confidence_bps: self.confidence_bps,
            reasoning: self.reasoning.clone(),
            actual_price_micro: self.actual_price_micro,
        }
    }
}

impl Signal {
    /// A pending signal with the given fields.
    pub fn pending(
        timestamp: u64,
        action: Action,
        predicted_price_micro: u64,
        confidence_bps: u64,
        reasoning: String,
    ) -> (signal: Signal)
        ensures
            signal@ == SignalView::pending(
                timestamp as nat,
                action,
                predicted_price_micro as nat,
                confidence_bps as nat,
                reasoning@,
            ),
            signal.timestamp == timestamp,
            signal.action == action,
            signal.predicted_price_micro == predicted_price_micro,
            signal.confidence_bps == confidence_bps,
            signal.reasoning == reasoning,
            signal.actual_price_micro is None,
            signal@.is_pending(),
    {
        Signal {
            timestamp,
            action,
            predicted_price_micro,
            confidence_bps,
            reasoning,
            actual_price_micro: None,
        }
    }

    /// Checks a candidate against the three admission rules.
    ///
    /// Succeeds exactly when the confidence is at most 10000 basis points,
    /// the predicted price is above zero and the reasoning holds at most
    /// 512 characters. Otherwise reports the first rule that fails.
    pub fn validate(&self) -> (verdict: Result<(), ValidationError>)
        ensures
            verdict == self@.validation(),
            verdict is Ok <==> self@.is_valid(),
            verdict is Ok <==> self.confidence_bps <= 10_000 && self.predicted_price_micro > 0
                && self.reasoning@.len() <= 512,
            verdict == Err::<(), ValidationError>(
                ValidationError::OutOfRange { field: Field::Confidence },
            ) <==> self.confidence_bps > 10_000,
            verdict == Err::<(), ValidationError>(
                ValidationError::OutOfRange { field: Field::PredictedPrice },
            ) <==> self.confidence_bps <= 10_000 && self.predicted_price_micro == 0,
            verdict == Err::<(), ValidationError>(
                ValidationError::TooLong { field: Field::Reasoning, max: 512 },
            ) <==> self.confidence_bps <= 10_000 && self.predicted_price_micro > 0
                && self.reasoning@.len() > 512,
    {
        if self.confidence_bps > MAX_CONFIDENCE_BPS {
            return Err(ValidationError::OutOfRange { field: Field::Confidence });
        }
        if self.predicted_price_micro == 0 {
            return Err(ValidationError::OutOfRange { field: Field::PredictedPrice });
        }
        if self.reasoning.as_str().unicode_len() > MAX_REASONING_CHARS {
            return Err(
                ValidationError::TooLong { field: Field::Reasoning, max: MAX_REASONING_CHARS },
            );
        }
        Ok(())
    }

    /// Whether the signal has been given its outcome.
    pub fn is_resolved(&self) -> (resolved: bool)
        ensures
            resolved == self@.is_resolved(),
    {
        self.actual_price_micro.is_some()
    }

    /// Judges the signal's direction against `previous_price_micro`.
    ///
    /// Returns `None` while the signal is pending. Once resolved, a `Buy` is
    /// correct when the actual price is at or above the reference, a `Sell`
    /// when it is at or below it, and a `Hold` when it lies within 2% of it.
    pub fn is_directionally_correct(&self, previous_price_micro: u64) -> (verdict: Option<bool>)
        ensures
            verdict == self@.directionally_correct(previous_price_micro as nat),
            verdict is Some <==> self.actual_price_micro is Some,
    {
        match self.actual_price_micro {
            None => None,
            Some(actual) => {
                let correct = match self.action {
                    Action::Buy => actual >= previous_price_micro,
                    Action::Sell => actual <= previous_price_micro,
                    Action::Hold => {
                        let gap: u64 = if actual >= previous_price_micro {
                            actual - previous_price_micro
                        } else {
                            previous_price_micro - actual
                        };
                        previous_price_micro > 0 && (HOLD_BAND_DIVISOR as u128) * (gap as u128)
                            <= previous_price_micro as u128
                    },
                };
                Some(correct)
            },
        }
    }

    /// Square of the distance between prediction and outcome.
    pub fn squared_error(&self) -> (error: u128)
        ensures
            error == self@.squared_error(),
    {
        match self.actual_price_micro {
            None => 0,
            Some(actual) => {
                let gap: u64 = if self.predicted_price_micro >= actual {
                    self.predicted_price_micro - actual
                } else {
                    actual - self.predicted_price_micro
                };
                assert((gap as u128) * (gap as u128) <= u128::MAX) by (nonlinear_arith)
                    requires
                        gap <= u64::MAX,
                ;
                (gap as u128) * (gap as u128)
            },
        }
    }
}

} // verus!
