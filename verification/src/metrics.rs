//! Running accuracy statistics over resolved signals.
//!
//! The record keeps three accumulators (resolutions seen, resolutions that
//! were directionally correct, and the sum of squared price errors) and two
//! figures derived from them: the directional accuracy and the root mean
//! square error. Folding a resolved signal in moves the accumulators forward
//! and recomputes the derived figures.

use crate::signal::{Signal, SignalView};
use vstd::prelude::*;

verus! {

/// Whether `root` is the integer square root of `n`: the greatest number
/// whose square does not exceed `n`.
pub open spec fn is_floor_sqrt(n: nat, root: nat) -> bool {
    root * root <= n < (root + 1) * (root + 1)
}

/// The integer square root of `n`, i.e. the square root rounded down.
pub open spec fn floor_sqrt(n: nat) -> nat {
    choose|root: nat| is_floor_sqrt(n, root)
}

/// A number has at most one integer square root.
pub proof fn lemma_floor_sqrt_unique(n: nat, a: nat, b: nat)
    requires
        is_floor_sqrt(n, a),
        is_floor_sqrt(n, b),
    ensures
        a == b,
{
    if a < b {
        assert((a + 1) * (a + 1) <= b * b) by (nonlinear_arith)
            requires
                a + 1 <= b,
        ;
    }
    if b < a {
        assert((b + 1) * (b + 1) <= a * a) by (nonlinear_arith)
            requires
                b + 1 <= a,
        ;
    }
}

/// Every number has an integer square root, and `floor_sqrt` names it.
pub proof fn lemma_floor_sqrt_is_root(n: nat)
    ensures
        is_floor_sqrt(n, floor_sqrt(n)),
    decreases n,
{
    if n == 0 {
        assert(0nat * 0nat <= 0nat < (0nat + 1) * (0nat + 1)) by (nonlinear_arith);
        assert(is_floor_sqrt(0, 0));
    } else {
        lemma_floor_sqrt_is_root((n - 1) as nat);
        let below = floor_sqrt((n - 1) as nat);
        if (below + 1) * (below + 1) <= n {
            assert(n < (below + 2) * (below + 2)) by (nonlinear_arith)
                requires
                    (below + 1) * (below + 1) == n,
            ;
            assert(is_floor_sqrt(n, below + 1));
        } else {
            assert(below * below <= n) by (nonlinear_arith)
                requires
                    below * below <= n - 1,
            ;
            assert(is_floor_sqrt(n, below));
        }
    }
}

/// Whatever passes the test of an integer square root is `floor_sqrt`.
pub proof fn lemma_floor_sqrt_from_root(n: nat, root: nat)
    requires
        is_floor_sqrt(n, root),
    ensures
        floor_sqrt(n) == root,
{
    lemma_floor_sqrt_unique(n, root, floor_sqrt(n));
}

/// Mathematical model of [`AccuracyMetrics`]: the accumulators alone. The
/// derived figures are functions of them.
pub struct AccuracyMetricsView {
    /// Resolutions folded in so far.
    pub total_predictions: nat,
    /// Those of them that were directionally correct.
    pub correct_predictions: nat,
    /// Sum over them of the squared price error, in micro-units squared.
    pub sum_squared_errors: nat,
    /// Time of the latest fold.
    pub last_updated: nat,
}

impl AccuracyMetricsView {
    /// The record before anything has been folded in.
    pub open spec fn zero() -> AccuracyMetricsView {
        AccuracyMetricsView {
            total_predictions: 0,
            correct_predictions: 0,
            sum_squared_errors: 0,
            last_updated: 0,
        }
    }

    /// No more correct resolutions than resolutions.
    pub open spec fn consistent(self) -> bool {
        self.correct_predictions <= self.total_predictions
    }

    /// Share of correct resolutions in basis points, rounded down:
    /// a hundred times the percentage `100 * correct / total`, and zero
    /// while nothing has been folded in.
    pub open spec fn directional_accuracy_bps(self) -> nat {
        if self.total_predictions == 0 {
            0
        } else {
            (10_000 * self.correct_predictions) / self.total_predictions
        }
    }

    /// Root mean square error in micro-units, rounded down:
    /// `sqrt(sum_squared_errors / total)`, and zero while nothing has been
    /// folded in.
    pub open spec fn rmse_micro(self) -> nat {
        if self.total_predictions == 0 {
            0
        } else {
            floor_sqrt(self.sum_squared_errors / self.total_predictions)
        }
    }

    /// The record after one more resolved signal, judged against
    /// `reference`, has been folded in at time `now`.
    pub open spec fn fold(self, signal: SignalView, reference: nat, now: nat) -> AccuracyMetricsView {
        AccuracyMetricsView {
            total_predictions: self.total_predictions + 1,
            correct_predictions: if signal.directionally_correct(reference) == Some(true) {
                self.correct_predictions + 1
            } else {
                self.correct_predictions
            },
            sum_squared_errors: self.sum_squared_errors + signal.squared_error(),
            last_updated: now,
        }
    }

    /// Whether the accumulators can take `signal` without leaving the range
    /// of the machine integers that hold them.
    pub open spec fn has_room_for(self, signal: SignalView) -> bool {
        self.total_predictions < u64::MAX && self.sum_squared_errors + signal.squared_error()
            <= u128::MAX
    }
}

/// Running aggregate over the resolved signals of one bot.
#[derive(Clone, Copy, Debug, PartialEq, Eq)]
pub struct AccuracyMetrics {
    total_predictions: u64,
    correct_predictions: u64,
    directional_accuracy_bps: u64,
    rmse_micro: u64,
    last_updated: u64,
    sum_squared_errors: u128,
}

impl View for AccuracyMetrics {
    type V = AccuracyMetricsView;

    closed spec fn view(&self) -> AccuracyMetricsView {
        AccuracyMetricsView {
            total_predictions: self.total_predictions as nat,
            correct_predictions: self.correct_predictions as nat,
            sum_squared_errors: self.sum_squared_errors as nat,
            last_updated: self.last_updated as nat,
        }
    }
}

/// The integer square root of `n`.
pub fn integer_sqrt(n: u128) -> (root: u64)
    ensures
        is_floor_sqrt(n as nat, root as nat),
        root == floor_sqrt(n as nat),
{
    let mut low: u128 = 0;
    let mut high: u128 = 0x1_0000_0000_0000_0000;
    assert(n < high * high) by (nonlinear_arith)
        requires
            high == 0x1_0000_0000_0000_0000,
            n <= u128::MAX,
    ;
    while high - low > 1
        invariant
            low < high <= 0x1_0000_0000_0000_0000,
            low * low <= n < high * high,
        decreases high - low,
    {
        let middle: u128 = low + (high - low) / 2;
        assert(middle * middle <= u128::MAX) by (nonlinear_arith)
            requires
                middle <= 0xFFFF_FFFF_FFFF_FFFF,
        ;
        if middle * middle <= n {
            low = middle;
        } else {
            high = middle;
        }
    }
    proof {
        lemma_floor_sqrt_from_root(n as nat, low as nat);
    }
    low as u64
}

/// Share of `correct` in `total`, in basis points, rounded down.
fn share_bps(correct: u64, total: u64) -> (share: u64)
    requires
        correct <= total,
    ensures
        share <= 10_000,
        total == 0 ==> share == 0,
        total > 0 ==> share == (10_000 * correct) / (total as int),
{
    if total == 0 {
        0
    } else {
        let scaled: u128 = 10_000u128 * (correct as u128);
        let share: u128 = scaled / (total as u128);
        assert(share <= 10_000) by (nonlinear_arith)
            requires
                share == scaled / (total as u128),
                scaled == 10_000 * correct,
                correct <= total,
                total > 0,
        ;
        share as u64
    }
}

/// Root of the mean of `sum` over `total` terms, rounded down.
fn root_mean(sum: u128, total: u64) -> (root: u64)
    ensures
        total == 0 ==> root == 0,
        total > 0 ==> root == floor_sqrt((sum as nat) / (total as nat)),
{
    if total == 0 {
        0
    } else {
        integer_sqrt(sum / (total as u128))
    }
}

impl AccuracyMetrics {
    #[verifier::type_invariant]
    spec fn well_formed(&self) -> bool {
        &&& self.correct_predictions <= self.total_predictions
        &&& self.directional_accuracy_bps == self@.directional_accuracy_bps()
        &&& self.rmse_micro == self@.rmse_micro()
    }

    /// Rebuilds a record from stored accumulators.
    ///
    /// Returns `None` exactly when more correct resolutions than resolutions
    /// are claimed; otherwise the record with these accumulators and the
    /// figures derived from them.
    pub fn from_parts(
        total_predictions: u64,
        correct_predictions: u64,
        sum_squared_errors: u128,
        last_updated: u64,
    ) -> (metrics: Option<AccuracyMetrics>)
        ensures
            metrics is Some <==> correct_predictions <= total_predictions,
            metrics matches Some(m) ==> m@ == (AccuracyMetricsView {
                total_predictions: total_predictions as nat,
                correct_predictions: correct_predictions as nat,
                sum_squared_errors: sum_squared_errors as nat,
                last_updated: last_updated as nat,
            }),
    {
        if correct_predictions > total_predictions {
            return None;
        }
        Some(
            AccuracyMetrics {
                total_predictions,
                correct_predictions,
                directional_accuracy_bps: share_bps(correct_predictions, total_predictions),
                rmse_micro: root_mean(sum_squared_errors, total_predictions),
                last_updated,
                sum_squared_errors,
            },
        )
    }

    /// Number of resolutions folded in.
    pub fn total_predictions(&self) -> (count: u64)
        ensures
            count == self@.total_predictions,
    {
        self.total_predictions
    }

    /// Number of resolutions that were directionally correct.
    pub fn correct_predictions(&self) -> (count: u64)
        ensures
            count == self@.correct_predictions,
            self@.consistent(),
    {
        proof {
            use_type_invariant(self);
        }
        self.correct_predictions
    }

    /// Directional accuracy in basis points: 10000 means every resolution
    /// was correct.
    pub fn directional_accuracy_bps(&self) -> (share: u64)
        ensures
            share == self@.directional_accuracy_bps(),
            share <= 10_000,
    {
        proof {
            use_type_invariant(self);
            lemma_accuracy_bounded(self@);
        }
        self.directional_accuracy_bps
    }

    /// Root mean square error in micro-units.
    pub fn rmse_micro(&self) -> (root: u64)
        ensures
            root == self@.rmse_micro(),
    {
        proof {
            use_type_invariant(self);
        }
        self.rmse_micro
    }

    /// Time of the latest fold.
    pub fn last_updated(&self) -> (time: u64)
        ensures
            time == self@.last_updated,
    {
        self.last_updated
    }

    /// The running sum of squared errors, for storage.
    pub fn sum_squared_errors(&self) -> (sum: u128)
        ensures
            sum == self@.sum_squared_errors,
    {
        self.sum_squared_errors
    }

    /// Whether `signal` can be folded in without overflowing an accumulator.
    pub fn has_room_for(&self, signal: &Signal) -> (room: bool)
        ensures
            room == self@.has_room_for(signal@),
    {
        let error: u128 = signal.squared_error();
        self.total_predictions < u64::MAX && error <= u128::MAX - self.sum_squared_errors
    }

    /// Folds one resolved signal into the record.
    ///
    /// Counts the resolution, counts it as correct when the signal's
    /// direction holds against `previous_price_micro`, adds its squared
    /// error to the running sum, recomputes accuracy and error, and stamps
    /// the record with `timestamp`. Folding is not idempotent: the same
    /// signal folded twice is counted twice.
    pub fn update(&mut self, signal: &Signal, previous_price_micro: u64, timestamp: u64)
        requires
            signal.actual_price_micro is Some,
            old(self)@.has_room_for(signal@),
        ensures
            final(self)@ == old(self)@.fold(
                signal@,
                previous_price_micro as nat,
                timestamp as nat,
            ),
            final(self)@.total_predictions == old(self)@.total_predictions + 1,
            final(self)@.correct_predictions >= old(self)@.correct_predictions,
            final(self)@.last_updated == timestamp,
    {
        proof {
            use_type_invariant(&*self);
        }
        let correct = match signal.is_directionally_correct(previous_price_micro) {
            Some(true) => self.correct_predictions + 1,
            _ => self.correct_predictions,
        };
        let total: u64 = self.total_predictions + 1;
        let sum: u128 = self.sum_squared_errors + signal.squared_error();
        *self = AccuracyMetrics {
            total_predictions: total,
            correct_predictions: correct,
            directional_accuracy_bps: share_bps(correct, total),
            rmse_micro: root_mean(sum, total),
            last_updated: timestamp,
            sum_squared_errors: sum,
        };
    }
}

impl Default for AccuracyMetrics {
    /// The record before anything has been folded in: every figure zero.
    fn default() -> (metrics: AccuracyMetrics)
        ensures
            metrics@ == AccuracyMetricsView::zero(),
    {
        AccuracyMetrics {
            total_predictions: 0,
            correct_predictions: 0,
            directional_accuracy_bps: 0,
            rmse_micro: 0,
            last_updated: 0,
            sum_squared_errors: 0,
        }
    }
}

/// A consistent record's accuracy never exceeds 10000 basis points.
pub proof fn lemma_accuracy_bounded(metrics: AccuracyMetricsView)
    requires
        metrics.consistent(),
    ensures
        metrics.directional_accuracy_bps() <= 10_000,
{
    if metrics.total_predictions > 0 {
        let correct = metrics.correct_predictions;
        let total = metrics.total_predictions;
        assert((10_000 * correct) / total <= 10_000) by (nonlinear_arith)
            requires
                correct <= total,
                total > 0,
        ;
    }
}

/// Folding is not idempotent: a signal folded in twice is counted twice.
///
/// After the second fold the record shows two more resolutions than at the
/// start, twice the signal's squared error more in the sum, and, if the
/// signal was directionally correct, two more correct resolutions. It
/// differs from the record after the first fold.
pub proof fn lemma_fold_twice_counts_twice(
    metrics: AccuracyMetricsView,
    signal: SignalView,
    reference: nat,
    now: nat,
)
    ensures
        ({
            let once = metrics.fold(signal, reference, now);
            let twice = once.fold(signal, reference, now);
            let gain: nat = if signal.directionally_correct(reference) == Some(true) {
                1
            } else {
                0
            };
            &&& once.total_predictions == metrics.total_predictions + 1
            &&& twice.total_predictions == metrics.total_predictions + 2
            &&& twice.correct_predictions == metrics.correct_predictions + 2 * gain
            &&& twice.sum_squared_errors == metrics.sum_squared_errors + 2
                * signal.squared_error()
            &&& twice != once
        }),
{
}

/// Counts never decrease, and a record that shows no more correct
/// resolutions than resolutions still does so after a fold.
pub proof fn lemma_fold_is_monotonic(
    metrics: AccuracyMetricsView,
    signal: SignalView,
    reference: nat,
    now: nat,
)
    ensures
        metrics.fold(signal, reference, now).total_predictions == metrics.total_predictions + 1,
        metrics.fold(signal, reference, now).correct_predictions >= metrics.correct_predictions,
        metrics.fold(signal, reference, now).correct_predictions <= metrics.correct_predictions
            + 1,
        metrics.fold(signal, reference, now).sum_squared_errors >= metrics.sum_squared_errors,
        metrics.consistent() ==> metrics.fold(signal, reference, now).consistent(),
{
}

/// The accuracy in basis points is the share of correct resolutions, scaled
/// by 10000 and rounded down.
pub proof fn lemma_accuracy_is_rounded_share(metrics: AccuracyMetricsView)
    requires
        metrics.total_predictions > 0,
    ensures
        metrics.directional_accuracy_bps() * metrics.total_predictions <= 10_000
            * metrics.correct_predictions,
        10_000 * metrics.correct_predictions < (metrics.directional_accuracy_bps() + 1)
            * metrics.total_predictions,
{
    let scaled = 10_000 * metrics.correct_predictions;
    let total = metrics.total_predictions;
    let share = scaled / total;
    assert(share * total <= scaled < (share + 1) * total) by (nonlinear_arith)
        requires
            total > 0,
            scaled >= 0,
            share == scaled / total,
    ;
}

/// The error figure is the square root of the mean squared error, rounded
/// down: it is the greatest number whose square, taken once for every
/// resolution, does not exceed the sum of squared errors.
pub proof fn lemma_rmse_is_rounded_root(metrics: AccuracyMetricsView)
    requires
        metrics.total_predictions > 0,
    ensures
        is_floor_sqrt(
            metrics.sum_squared_errors / metrics.total_predictions,
            metrics.rmse_micro(),
        ),
        metrics.rmse_micro() * metrics.rmse_micro() * metrics.total_predictions
            <= metrics.sum_squared_errors,
        metrics.sum_squared_errors < (metrics.rmse_micro() + 1) * (metrics.rmse_micro() + 1)
            * metrics.total_predictions,
{
    let sum = metrics.sum_squared_errors;
    let total = metrics.total_predictions;
    let mean = sum / total;
    let root = metrics.rmse_micro();
    lemma_floor_sqrt_is_root(mean);
    assert(mean * total <= sum < (mean + 1) * total) by (nonlinear_arith)
        requires
            total > 0,
            mean == sum / total,
    ;
    assert(root * root * total <= mean * total) by (nonlinear_arith)
        requires
            root * root <= mean,
    ;
    assert((mean + 1) * total <= (root + 1) * (root + 1) * total) by (nonlinear_arith)
        requires
            mean + 1 <= (root + 1) * (root + 1),
    ;
}

} // verus!
