//! The perceptron: a weight vector, a learning rate, a sign-based prediction
//! rule, and the online weight update that learns from one labeled example.
//!
//! Weights, inputs and the learning rate are fixed-point integers (see the
//! crate root for the scaling convention). Prediction is the sign of the dot
//! product of the inputs with the weights, with the sign of zero fixed to
//! `-1`. Training moves each weight by `(target - guess) * input * rate`,
//! exactly; a guess that already matches the target leaves the weights
//! untouched.

use vstd::prelude::*;
use crate::point::RandomPoint;
use crate::sample;

verus! {

/// Fixed-point steps per real unit, for inputs and for the learning rate.
pub const UNIT: i32 = 1000;

/// Fixed-point steps per real unit for weights: `UNIT * UNIT`, so that the
/// product of a `UNIT`-scaled input with a `UNIT`-scaled rate is exactly one
/// weight step per real unit.
pub const WEIGHT_UNIT: i32 = UNIT * UNIT;

/// The sign a perceptron reports for a decision statistic: `1` when strictly
/// positive, `-1` otherwise (zero counts as `-1`).
pub open spec fn sign_of(s: int) -> int {
    if s > 0 {
        1
    } else {
        -1
    }
}

/// Sum of the first `n` pairwise products of `a` and `b`.
pub open spec fn dot_prefix(a: Seq<i32>, b: Seq<i32>, n: int) -> int
    decreases n,
{
    if n <= 0 {
        0
    } else {
        dot_prefix(a, b, n - 1) + a[n - 1] * b[n - 1]
    }
}

/// Dot product of two equal-length vectors.
pub open spec fn dot(a: Seq<i32>, b: Seq<i32>) -> int {
    dot_prefix(a, b, a.len() as int)
}

/// Whether a mathematical weight value fits the stored weight type.
pub open spec fn fits_weight(v: int) -> bool {
    i32::MIN <= v <= i32::MAX
}

/// The ways a perceptron call can fail.
#[derive(Clone, Copy, Debug, PartialEq, Eq, Structural)]
pub enum PerceptronError {
    /// The inputs vector does not have one entry per weight.
    DimensionMismatch,
    /// A weight update would leave the range of the stored weight type.
    WeightOverflow,
}

/// A single-layer perceptron: a weight vector and a learning rate.
pub struct Perceptron {
    weights: Vec<i32>,
    lr: i32,
}

impl Perceptron {
    /// The current weight vector.
    pub closed spec fn weight_seq(self) -> Seq<i32> {
        self.weights@
    }

    /// The learning rate.
    pub closed spec fn rate(self) -> int {
        self.lr as int
    }

    /// The input dimensionality the perceptron accepts.
    pub open spec fn dim(self) -> nat {
        self.weight_seq().len()
    }

    /// What `guess` returns on `inputs`: the sign of the dot product of the
    /// inputs with the weights, with zero counting as `-1`.
    pub open spec fn guess_spec(self, inputs: Seq<i32>) -> int {
        sign_of(dot(inputs, self.weight_seq()))
    }

    /// The training error on one example: target minus guess, one of
    /// `-2`, `0`, `2` for labels in `{1, -1}`.
    pub open spec fn error_spec(self, inputs: Seq<i32>, target: int) -> int {
        target - self.guess_spec(inputs)
    }

    /// The value weight `k` takes after training once on `(inputs, target)`.
    pub open spec fn updated_weight(self, inputs: Seq<i32>, target: int, k: int) -> int {
        self.weight_seq()[k] + self.error_spec(inputs, target) * inputs[k] * self.rate()
    }

    /// Whether every weight update for `(inputs, target)` stays in range.
    pub open spec fn update_fits(self, inputs: Seq<i32>, target: int) -> bool {
        forall|k: int|
            0 <= k < inputs.len() ==> fits_weight(#[trigger] self.updated_weight(inputs, target, k))
    }

    /// A fresh perceptron of the given dimensionality: each weight drawn
    /// independently and uniformly from `[-WEIGHT_UNIT, WEIGHT_UNIT)`, one
    /// real unit either way.
    #[verifier::loop_isolation(false)]
    pub fn new(dim: usize, lr: i32) -> (p: Perceptron)
        requires
            lr >= 0,
        ensures
            p.dim() == dim,
            p.rate() == lr,
            forall|k: int| 0 <= k < dim ==> -WEIGHT_UNIT <= #[trigger] p.weight_seq()[k] < WEIGHT_UNIT,
    {
        let mut w: Vec<i32> = Vec::new();
        while w.len() < dim
            invariant
                w@.len() <= dim,
                forall|k: int| 0 <= k < w@.len() ==> -WEIGHT_UNIT <= #[trigger] w@[k] < WEIGHT_UNIT,
            decreases dim - w@.len(),
        {
            w.push(sample::draw_in_range(-WEIGHT_UNIT, WEIGHT_UNIT));
        }
        Perceptron { weights: w, lr }
    }

    /// A perceptron with the given weights and learning rate.
    pub fn with_weights(weights: Vec<i32>, lr: i32) -> (p: Perceptron)
        requires
            lr >= 0,
        ensures
            p.weight_seq() == weights@,
            p.rate() == lr,
    {
        Perceptron { weights, lr }
    }

    /// How many weights the perceptron holds.
    pub fn weight_count(&self) -> (n: usize)
        ensures
            n == self.dim(),
    {
        self.weights.len()
    }

    /// The current weight vector.
    pub fn weights(&self) -> (w: &Vec<i32>)
        ensures
            w@ == self.weight_seq(),
    {
        &self.weights
    }

    /// The learning rate.
    pub fn learning_rate(&self) -> (l: i32)
        ensures
            l == self.rate(),
    {
        self.lr
    }

    /// Predicts the label of `inputs`: `1` when the dot product with the
    /// weights is strictly positive, `-1` otherwise.
    #[verifier::loop_isolation(false)]
    pub fn guess(&self, inputs: &Vec<i32>) -> (g: i32)
        requires
            inputs@.len() == self.dim(),
        ensures
            g == self.guess_spec(inputs@),
    {
        let n = self.weights.len();
        let mut sum: i128 = 0;
        let mut i: usize = 0;
        while i < n
            invariant
                0 <= i <= n,
                sum == dot_prefix(inputs@, self.weight_seq(), i as int),
                -0x4000_0000_0000_0000 * (i as int) <= sum <= 0x4000_0000_0000_0000 * (i as int),
            decreases n - i,
        {
            let xi = inputs[i];
            let wi = self.weights[i];
            proof {
                lemma_i32_product_bound(xi as int, wi as int);
            }
            sum = sum + (xi as i128) * (wi as i128);
            i = i + 1;
        }
        if sum > 0 {
            1
        } else {
            -1
        }
    }

    /// Predicts the label of `inputs`, rejecting a dimension mismatch instead
    /// of presupposing it away: `Ok` exactly when `inputs` has one entry per
    /// weight, `Err(DimensionMismatch)` otherwise.
    pub fn try_guess(&self, inputs: &Vec<i32>) -> (r: Result<i32, PerceptronError>)
        ensures
            r is Ok <==> inputs@.len() == self.dim(),
            inputs@.len() == self.dim() ==> (r matches Ok(g) && g == self.guess_spec(inputs@)),
            inputs@.len() != self.dim() ==> r == Err::<i32, PerceptronError>(
                PerceptronError::DimensionMismatch,
            ),
    {
        if inputs.len() != self.weights.len() {
            Err(PerceptronError::DimensionMismatch)
        } else {
            Ok(self.guess(inputs))
        }
    }

    /// Trains on one labeled example: computes the guess for `inputs`, then
    /// moves every weight by `(target - guess) * input * rate`, exactly.
    ///
    /// A guess that already matches the target leaves the weights unchanged.
    /// When the guess is wrong and the rate is positive, each weight moves
    /// in the direction that the sign of its input dictates: toward the
    /// target's side of the boundary.
    #[verifier::loop_isolation(false)]
    pub fn train(&mut self, inputs: &Vec<i32>, target: i32)
        requires
            inputs@.len() == old(self).dim(),
            target == 1 || target == -1,
            old(self).update_fits(inputs@, target as int),
        ensures
            final(self).dim() == old(self).dim(),
            final(self).rate() == old(self).rate(),
            forall|k: int|
                0 <= k < inputs@.len() ==> #[trigger] final(self).weight_seq()[k]
                    == old(self).updated_weight(inputs@, target as int, k),
            old(self).guess_spec(inputs@) == target ==> final(self).weight_seq() == old(
                self,
            ).weight_seq(),
            (target == 1 && old(self).guess_spec(inputs@) == -1 && old(self).rate() > 0) ==> (
            forall|k: int|
                0 <= k < inputs@.len() ==> (
                (inputs@[k] > 0 ==> #[trigger] final(self).weight_seq()[k] > old(
                    self,
                ).weight_seq()[k]) && (inputs@[k] < 0 ==> final(self).weight_seq()[k] < old(
                    self,
                ).weight_seq()[k]) && (inputs@[k] == 0 ==> final(self).weight_seq()[k] == old(
                    self,
                ).weight_seq()[k]))),
            (target == -1 && old(self).guess_spec(inputs@) == 1 && old(self).rate() > 0) ==> (
            forall|k: int|
                0 <= k < inputs@.len() ==> (
                (inputs@[k] > 0 ==> #[trigger] final(self).weight_seq()[k] < old(
                    self,
                ).weight_seq()[k]) && (inputs@[k] < 0 ==> final(self).weight_seq()[k] > old(
                    self,
                ).weight_seq()[k]) && (inputs@[k] == 0 ==> final(self).weight_seq()[k] == old(
                    self,
                ).weight_seq()[k]))),
    {
        let g = self.guess(inputs);
        let err: i32 = target - g;
        let lr = self.lr;
        let n = self.weights.len();
        let mut i: usize = 0;
        while i < n
            invariant
                0 <= i <= n,
                self.weights@.len() == n,
                self.lr == old(self).lr,
                forall|k: int|
                    0 <= k < i ==> #[trigger] self.weights@[k] == old(self).updated_weight(
                        inputs@,
                        target as int,
                        k,
                    ),
                forall|k: int| i <= k < n ==> #[trigger] self.weights@[k] == old(self).weights@[k],
            decreases n - i,
        {
            let xi = inputs[i];
            let wi = self.weights[i];
            proof {
                lemma_error_product_bound(err as int, xi as int, lr as int);
                assert(fits_weight(old(self).updated_weight(inputs@, target as int, i as int)));
            }
            let step: i128 = (err as i128) * (xi as i128) * (lr as i128);
            let wide: i128 = (wi as i128) + step;
            let updated: i32 = wide as i32;
            self.weights.set(i, updated);
            i = i + 1;
        }
        proof {
            if old(self).guess_spec(inputs@) == target {
                assert(err == 0);
                assert forall|k: int| 0 <= k < n implies #[trigger] self.weights@[k] == old(
                    self,
                ).weights@[k] by {
                    lemma_zero_times(inputs@[k] as int, lr as int);
                }
                assert(self.weights@ =~= old(self).weights@);
            }
            if target == 1 && old(self).guess_spec(inputs@) == -1 && old(self).rate() > 0 {
                assert forall|k: int| 0 <= k < inputs@.len() implies (
                (inputs@[k] > 0 ==> #[trigger] self.weight_seq()[k] > old(self).weight_seq()[k]) && (
                inputs@[k] < 0 ==> self.weight_seq()[k] < old(self).weight_seq()[k]) && (inputs@[k]
                    == 0 ==> self.weight_seq()[k] == old(self).weight_seq()[k])) by {
                    lemma_step_sign(2, inputs@[k] as int, old(self).rate());
                }
            }
            if target == -1 && old(self).guess_spec(inputs@) == 1 && old(self).rate() > 0 {
                assert forall|k: int| 0 <= k < inputs@.len() implies (
                (inputs@[k] > 0 ==> #[trigger] self.weight_seq()[k] < old(self).weight_seq()[k]) && (
                inputs@[k] < 0 ==> self.weight_seq()[k] > old(self).weight_seq()[k]) && (inputs@[k]
                    == 0 ==> self.weight_seq()[k] == old(self).weight_seq()[k])) by {
                    lemma_step_sign(-2, inputs@[k] as int, old(self).rate());
                }
            }
        }
    }

    /// Trains on one labeled example, rejecting bad calls instead of
    /// presupposing them away: `Err(DimensionMismatch)` when `inputs` does
    /// not have one entry per weight, `Err(WeightOverflow)` when some updated
    /// weight would leave the stored range; in either error case the weights
    /// are unchanged. Otherwise trains exactly as `train` does.
    pub fn try_train(&mut self, inputs: &Vec<i32>, target: i32) -> (r: Result<
        (),
        PerceptronError,
    >)
        requires
            target == 1 || target == -1,
        ensures
            final(self).dim() == old(self).dim(),
            final(self).rate() == old(self).rate(),
            r is Ok <==> (inputs@.len() == old(self).dim() && old(self).update_fits(
                inputs@,
                target as int,
            )),
            r == Err::<(), PerceptronError>(PerceptronError::DimensionMismatch) <==> inputs@.len()
                != old(self).dim(),
            r == Err::<(), PerceptronError>(PerceptronError::WeightOverflow) <==> (inputs@.len()
                == old(self).dim() && !old(self).update_fits(inputs@, target as int)),
            r is Ok ==> forall|k: int|
                0 <= k < inputs@.len() ==> #[trigger] final(self).weight_seq()[k] == old(
                    self,
                ).updated_weight(inputs@, target as int, k),
            !(r is Ok) ==> final(self).weight_seq() == old(self).weight_seq(),
    {
        if inputs.len() != self.weights.len() {
            return Err(PerceptronError::DimensionMismatch);
        }
        if !self.update_would_fit(inputs, target) {
            return Err(PerceptronError::WeightOverflow);
        }
        self.train(inputs, target);
        Ok(())
    }

    /// Whether training once on `(inputs, target)` keeps every weight in the
    /// stored range. Read-only; `train`'s overflow precondition, decidable
    /// ahead of the call.
    #[verifier::loop_isolation(false)]
    pub fn update_would_fit(&self, inputs: &Vec<i32>, target: i32) -> (ok: bool)
        requires
            inputs@.len() == self.dim(),
            target == 1 || target == -1,
        ensures
            ok == self.update_fits(inputs@, target as int),
    {
        let g = self.guess(inputs);
        let err: i32 = target - g;
        let lr = self.lr;
        let n = self.weights.len();
        let mut i: usize = 0;
        while i < n
            invariant
                0 <= i <= n,
                forall|k: int|
                    0 <= k < i ==> fits_weight(
                        #[trigger] self.updated_weight(inputs@, target as int, k),
                    ),
            decreases n - i,
        {
            let xi = inputs[i];
            let wi = self.weights[i];
            proof {
                lemma_error_product_bound(err as int, xi as int, lr as int);
            }
            let step: i128 = (err as i128) * (xi as i128) * (lr as i128);
            let wide: i128 = (wi as i128) + step;
            if wide < i32::MIN as i128 || wide > i32::MAX as i128 {
                proof {
                    assert(!fits_weight(self.updated_weight(inputs@, target as int, i as int)));
                }
                return false;
            }
            i = i + 1;
        }
        true
    }

    /// Whether the perceptron's current guess for a point's coordinates
    /// agrees with the point's ground-truth label.
    pub fn classifies_correctly(&self, pt: &RandomPoint) -> (r: bool)
        requires
            self.dim() == 2,
        ensures
            r == (self.guess_spec(seq![pt.x, pt.y]) == pt.label as int),
    {
        let mut inputs: Vec<i32> = Vec::new();
        inputs.push(pt.x);
        inputs.push(pt.y);
        proof {
            assert(inputs@ =~= seq![pt.x, pt.y]);
        }
        let g = self.guess(&inputs);
        g == pt.label
    }
}

/// The product of two `i32`-sized factors is bounded by `2^62` either way.
proof fn lemma_i32_product_bound(a: int, b: int)
    by (nonlinear_arith)
    requires
        -0x8000_0000 <= a <= 0x8000_0000,
        -0x8000_0000 <= b <= 0x8000_0000,
    ensures
        -0x4000_0000_0000_0000 <= a * b <= 0x4000_0000_0000_0000,
{
}

/// A training step `e * x * lr` with `i32`-sized factors and `|e| <= 2` is
/// bounded by `2^63` either way.
proof fn lemma_error_product_bound(e: int, x: int, lr: int)
    by (nonlinear_arith)
    requires
        -2 <= e <= 2,
        -0x8000_0000 <= x <= 0x8000_0000,
        -0x8000_0000 <= lr <= 0x8000_0000,
    ensures
        -0x2_0000_0000 <= e * x <= 0x2_0000_0000,
        -0x8000_0000_0000_0000 <= e * x * lr <= 0x8000_0000_0000_0000,
{
}

/// A zero error makes the training step vanish.
proof fn lemma_zero_times(x: int, lr: int)
    by (nonlinear_arith)
    ensures
        0 * x * lr == 0,
{
}

/// The sign of a training step `e * x * lr` with a positive rate follows the
/// signs of the error and the input.
proof fn lemma_step_sign(e: int, x: int, lr: int)
    by (nonlinear_arith)
    requires
        lr > 0,
    ensures
        e > 0 && x > 0 ==> e * x * lr > 0,
        e > 0 && x < 0 ==> e * x * lr < 0,
        e < 0 && x > 0 ==> e * x * lr < 0,
        e < 0 && x < 0 ==> e * x * lr > 0,
        x == 0 ==> e * x * lr == 0,
{
}

} // verus!
