//! A verified single-layer perceptron: a linear binary classifier over
//! two-dimensional points, together with the generator of the labeled sample
//! points it learns from.
//!
//! All quantities are fixed-point integers. One real unit is `UNIT` steps for
//! inputs and for the learning rate, and `UNIT * UNIT` steps for weights, so
//! the weight update `error * input * rate` — a product of two `UNIT`-scaled
//! factors — lands exactly on the weight grid with no rounding. The sign of a
//! dot product and the update rule are invariant under such uniform scalings,
//! so the integer model follows the real-valued one exactly.

pub mod perceptron;
pub mod point;
mod sample;
