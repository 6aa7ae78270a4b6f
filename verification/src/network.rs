//! The network: a fixed-topology multilayer perceptron (two inputs, one
//! hidden layer of three units, one output unit, every unit with a bias
//! weight) trained by hand-derived backpropagation to learn exclusive-or.
//!
//! Every scalar is the bit pattern of an IEEE 754 double (see `fp`). The
//! contracts below pin each result down to an exact composition of the
//! named IEEE operations, mirroring the evaluation order of the code.

use vstd::prelude::*;
use crate::fp::{
    add_bits, div_bits, f64_add, f64_div, f64_from_u64, f64_lt, f64_mul, f64_sub, from_u64_bits,
    lt_bits, mul_bits, random_u64, sub_bits, ONE_BITS, ZERO_BITS,
};

verus! {

/// The bits of the leak coefficient: the nearest double to fifteen
/// thousandths.
pub const LEAK_BITS: u64 = 0x3F8E_B851_EB85_1EB8;

/// The bits of the learning rate (the nearest double to one twentieth).
pub const RATE_BITS: u64 = 0x3FA9_9999_9999_999A;

/// The bits of negative two.
pub const NEG_TWO_BITS: u64 = 0xC000_0000_0000_0000;

/// The bits of three.
pub const THREE_BITS: u64 = 0x4008_0000_0000_0000;

/// The bits of two raised to the negative fifty-third power.
pub const TWO_NEG53_BITS: u64 = 0x3CA0_0000_0000_0000;

/// The weight matrices of a well-formed network: two layers, the first
/// (input to hidden) with three rows of three weights each, the second
/// (hidden to output) with one row of four weights.
pub open spec fn wf_weights(w: Seq<Seq<Seq<u64>>>) -> bool {
    &&& w.len() == 2
    &&& w[0].len() == 3
    &&& forall|j: int| 0 <= j < 3 ==> (#[trigger] w[0][j]).len() == 3
    &&& w[1].len() == 1
    &&& w[1][0].len() == 4
}

/// The running sum, left to right, of the products of the first `k` inputs
/// with the first `k` weights of a row, folded from positive zero exactly as
/// the code accumulates it.
pub open spec fn dot_prefix(xs: Seq<u64>, row: Seq<u64>, k: int) -> u64
    decreases k,
{
    if k <= 0 {
        ZERO_BITS
    } else {
        f64_add(dot_prefix(xs, row, k - 1), f64_mul(xs[k - 1], row[k - 1]))
    }
}

/// A unit's pre-activation sum: the inputs extended with a constant one
/// (the bias input) dotted against the unit's weight row.
pub open spec fn unit_sum_spec(xs: Seq<u64>, row: Seq<u64>) -> u64 {
    f64_add(
        dot_prefix(xs, row, xs.len() as int),
        f64_mul(ONE_BITS, row[xs.len() as int]),
    )
}

/// The leaky activation: the input itself, unless the leak-scaled copy is
/// greater, as it is for negative inputs.
pub open spec fn activation_spec(x: u64) -> u64 {
    if f64_lt(x, f64_mul(LEAK_BITS, x)) {
        f64_mul(LEAK_BITS, x)
    } else {
        x
    }
}

/// The derivative of the leaky activation: one for non-negative inputs,
/// the leak coefficient for negative ones.
pub open spec fn activation_slope_spec(x: u64) -> u64 {
    if f64_lt(x, ZERO_BITS) {
        LEAK_BITS
    } else {
        ONE_BITS
    }
}

/// One layer's outputs: every unit's activated pre-activation sum.
pub open spec fn layer_spec(xs: Seq<u64>, layer: Seq<Seq<u64>>) -> Seq<u64> {
    Seq::new(layer.len(), |j: int| activation_spec(unit_sum_spec(xs, layer[j])))
}

/// The full forward pass: the hidden layer applied to the inputs, then the
/// output layer applied to the hidden activations.
pub open spec fn decide_spec(w: Seq<Seq<Seq<u64>>>, xs: Seq<u64>) -> Seq<u64> {
    layer_spec(layer_spec(xs, w[0]), w[1])
}

/// A hidden unit's pre-activation sum for the given inputs.
pub open spec fn hidden_sum_spec(w: Seq<Seq<Seq<u64>>>, xs: Seq<u64>, j: int) -> u64 {
    unit_sum_spec(xs, w[0][j])
}

/// A hidden unit's activated output for the given inputs.
pub open spec fn hidden_act_spec(w: Seq<Seq<Seq<u64>>>, xs: Seq<u64>, j: int) -> u64 {
    activation_spec(hidden_sum_spec(w, xs, j))
}

/// The output unit's pre-activation sum for the given inputs.
pub open spec fn output_sum_spec(w: Seq<Seq<Seq<u64>>>, xs: Seq<u64>) -> u64 {
    unit_sum_spec(layer_spec(xs, w[0]), w[1][0])
}

/// The network's prediction: the output unit's activated sum.
pub open spec fn prediction_spec(w: Seq<Seq<Seq<u64>>>, xs: Seq<u64>) -> u64 {
    activation_spec(output_sum_spec(w, xs))
}

/// The output layer's error signal: negative two times the residual
/// (target minus prediction), through the activation's slope at the output
/// sum, scaled by the learning rate — in exactly that multiplication order.
pub open spec fn output_error_spec(w: Seq<Seq<Seq<u64>>>, xs: Seq<u64>, target: u64) -> u64 {
    f64_mul(
        f64_mul(
            f64_mul(NEG_TWO_BITS, f64_sub(target, prediction_spec(w, xs))),
            activation_slope_spec(output_sum_spec(w, xs)),
        ),
        RATE_BITS,
    )
}

/// Hidden unit `i`'s error signal: the output error propagated through that
/// unit's outgoing weight and the activation's slope at its own sum.
pub open spec fn hidden_error_spec(w: Seq<Seq<Seq<u64>>>, xs: Seq<u64>, target: u64, i: int) -> u64 {
    f64_mul(
        f64_mul(output_error_spec(w, xs, target), w[1][0][i]),
        activation_slope_spec(hidden_sum_spec(w, xs, i)),
    )
}

/// The gradient for output-layer weight `k`: the error signal scaled by the
/// corresponding hidden activation, or the bare error signal for the bias.
pub open spec fn output_delta_spec(w: Seq<Seq<Seq<u64>>>, xs: Seq<u64>, target: u64, k: int) -> u64 {
    if k < 3 {
        f64_mul(output_error_spec(w, xs, target), hidden_act_spec(w, xs, k))
    } else {
        output_error_spec(w, xs, target)
    }
}

/// The gradient for hidden-layer weight `k` of unit `j`: the unit's error
/// signal scaled by the raw input (or unscaled, for the bias), divided by
/// three — a deliberate damping factor of this derivation — and accumulated
/// into a buffer that starts at positive zero.
pub open spec fn hidden_delta_spec(
    w: Seq<Seq<Seq<u64>>>,
    xs: Seq<u64>,
    target: u64,
    j: int,
    k: int,
) -> u64 {
    if k < 2 {
        f64_add(
            ZERO_BITS,
            f64_div(f64_mul(hidden_error_spec(w, xs, target, j), xs[k]), THREE_BITS),
        )
    } else {
        f64_add(ZERO_BITS, f64_div(hidden_error_spec(w, xs, target, j), THREE_BITS))
    }
}

/// The weights after one training step: every weight decremented by its
/// gradient.
pub open spec fn train_spec(w: Seq<Seq<Seq<u64>>>, xs: Seq<u64>, target: u64) -> Seq<Seq<Seq<u64>>> {
    seq![
        Seq::new(3, |j: int| Seq::new(3, |k: int| f64_sub(w[0][j][k], hidden_delta_spec(w, xs, target, j, k)))),
        seq![Seq::new(4, |k: int| f64_sub(w[1][0][k], output_delta_spec(w, xs, target, k)))],
    ]
}

/// The weight matrices as a sequence of sequences, row by row.
pub open spec fn weights_view(w: &Vec<Vec<Vec<u64>>>) -> Seq<Seq<Seq<u64>>> {
    Seq::new(
        w@.len(),
        |i: int| Seq::new(w@[i]@.len(), |j: int| w@[i]@[j]@),
    )
}

/// One draw from the unit interval, built from a random word exactly as the
/// standard uniform distribution builds a double: the top fifty-three bits,
/// converted to a double and scaled down by two to the fifty-third power.
pub open spec fn unit_interval_spec(n: u64) -> u64 {
    f64_mul(TWO_NEG53_BITS, f64_from_u64(n >> 11))
}

/// Holds of a scalar that the unit-interval construction can produce: the
/// value a freshly drawn weight is guaranteed to have, for some random word.
pub open spec fn is_unit_sample(b: u64) -> bool {
    exists|n: u64| b == unit_interval_spec(n)
}

/// The network. It owns its two weight matrices and nothing else; the
/// weights are mutated only by `train`.
pub struct Network {
    weights: Vec<Vec<Vec<u64>>>,
}

impl View for Network {
    type V = Seq<Seq<Seq<u64>>>;

    closed spec fn view(&self) -> Seq<Seq<Seq<u64>>> {
        weights_view(&self.weights)
    }
}

impl Network {
    /// The network's shape invariant: see `wf_weights`.
    pub open spec fn wf(&self) -> bool {
        wf_weights(self@)
    }

    /// Turns a random word into a sample of the unit interval, as
    /// `unit_interval_spec` says.
    pub fn unit_interval_bits(n: u64) -> (r: u64)
        ensures
            r == unit_interval_spec(n),
    {
        mul_bits(TWO_NEG53_BITS, from_u64_bits(n >> 11))
    }

    /// One fresh weight: a draw from the unit interval built from a fresh
    /// random word.
    fn fresh_weight_bits() -> (r: u64)
        ensures
            is_unit_sample(r),
    {
        let n = random_u64();
        let r = Self::unit_interval_bits(n);
        proof {
            assert(r == unit_interval_spec(n));
        }
        r
    }

    /// Builds the network: two fixed-shape weight layers (three hidden rows
    /// of three weights, one output row of four), every entry drawn
    /// independently from the unit interval — so every weight is the
    /// unit-interval construction applied to some random word.
    #[verifier::loop_isolation(false)]
    pub fn new() -> (r: Network)
        ensures
            r.wf(),
            forall|j: int, k: int|
                0 <= j < 3 && 0 <= k < 3 ==> is_unit_sample(#[trigger] r@[0][j][k]),
            forall|k: int| 0 <= k < 4 ==> is_unit_sample(#[trigger] r@[1][0][k]),
    {
        let mut hidden: Vec<Vec<u64>> = Vec::new();
        let mut j: usize = 0;
        while j < 3
            invariant
                j <= 3,
                hidden@.len() == j,
                forall|t: int| 0 <= t < j ==> (#[trigger] hidden@[t])@.len() == 3,
                forall|t: int, k: int|
                    0 <= t < j && 0 <= k < 3 ==> is_unit_sample(#[trigger] hidden@[t]@[k]),
            decreases 3 - j,
        {
            let mut row: Vec<u64> = Vec::new();
            let mut k: usize = 0;
            while k < 3
                invariant
                    k <= 3,
                    row@.len() == k,
                    forall|t: int| 0 <= t < k ==> is_unit_sample(#[trigger] row@[t]),
                decreases 3 - k,
            {
                row.push(Self::fresh_weight_bits());
                k = k + 1;
            }
            hidden.push(row);
            j = j + 1;
        }
        let mut out_row: Vec<u64> = Vec::new();
        let mut k: usize = 0;
        while k < 4
            invariant
                k <= 4,
                out_row@.len() == k,
                forall|t: int| 0 <= t < k ==> is_unit_sample(#[trigger] out_row@[t]),
            decreases 4 - k,
        {
            out_row.push(Self::fresh_weight_bits());
            k = k + 1;
        }
        let mut out_layer: Vec<Vec<u64>> = Vec::new();
        out_layer.push(out_row);
        let mut weights: Vec<Vec<Vec<u64>>> = Vec::new();
        weights.push(hidden);
        weights.push(out_layer);
        let r = Network { weights };
        proof {
            assert forall|t: int| 0 <= t < 3 implies (#[trigger] r@[0][t]).len() == 3 by {
                assert(r@[0][t] == r.weights@[0]@[t]@);
            }
            assert forall|t: int, k2: int|
                0 <= t < 3 && 0 <= k2 < 3 implies is_unit_sample(#[trigger] r@[0][t][k2]) by {
                assert(r@[0][t] == r.weights@[0]@[t]@);
            }
            assert(r@[1][0] == r.weights@[1]@[0]@);
        }
        r
    }

    /// Builds a network from the given weight matrices. Succeeds exactly
    /// when the shape is the fixed one (two layers, three rows of three and
    /// one row of four); returns nothing otherwise.
    pub fn from_weights(weights: Vec<Vec<Vec<u64>>>) -> (r: Option<Network>)
        ensures
            r is Some <==> wf_weights(weights_view(&weights)),
            r is Some ==> r->Some_0@ == weights_view(&weights) && r->Some_0.wf(),
    {
        if weights.len() == 2 {
            let shape_ok = weights[0].len() == 3 && weights[1].len() == 1
                && weights[0][0].len() == 3 && weights[0][1].len() == 3
                && weights[0][2].len() == 3 && weights[1][0].len() == 4;
            if shape_ok {
                proof {
                    assert forall|t: int|
                        0 <= t < 3 implies (#[trigger] weights_view(&weights)[0][t]).len()
                        == 3 by {
                        assert(weights_view(&weights)[0][t] == weights@[0]@[t]@);
                    }
                    assert(weights_view(&weights)[1][0] == weights@[1]@[0]@);
                }
                return Some(Network { weights });
            }
            proof {
                assert(!wf_weights(weights_view(&weights))) by {
                    if wf_weights(weights_view(&weights)) {
                        assert(weights_view(&weights)[0][0] == weights@[0]@[0]@);
                        assert(weights_view(&weights)[0][1] == weights@[0]@[1]@);
                        assert(weights_view(&weights)[0][2] == weights@[0]@[2]@);
                        assert(weights_view(&weights)[1][0] == weights@[1]@[0]@);
                    }
                }
            }
            return None;
        }
        None
    }

    /// The current weight matrices, as bit patterns.
    pub fn weights(&self) -> (r: &Vec<Vec<Vec<u64>>>)
        ensures
            weights_view(r) == self@,
    {
        &self.weights
    }

    /// The leaky activation function: the greater of the input and its
    /// leak-scaled copy, compared as IEEE doubles.
    pub fn relu(x: u64) -> (r: u64)
        ensures
            r == activation_spec(x),
    {
        let scaled = mul_bits(LEAK_BITS, x);
        if lt_bits(x, scaled) {
            scaled
        } else {
            x
        }
    }

    /// The derivative of the leaky activation: one for non-negative inputs,
    /// the leak coefficient for negative ones.
    pub fn d_relu(x: u64) -> (r: u64)
        ensures
            r == activation_slope_spec(x),
    {
        if lt_bits(x, ZERO_BITS) {
            LEAK_BITS
        } else {
            ONE_BITS
        }
    }

    /// A unit's pre-activation sum: the inputs extended with a constant one
    /// (the bias input) dotted against the unit's weight row, accumulated
    /// left to right from positive zero.
    #[verifier::loop_isolation(false)]
    fn unit_sum(xs: &Vec<u64>, row: &Vec<u64>) -> (r: u64)
        requires
            row@.len() == xs@.len() + 1,
        ensures
            r == unit_sum_spec(xs@, row@),
    {
        let mut s: u64 = ZERO_BITS;
        let mut k: usize = 0;
        while k < xs.len()
            invariant
                k <= xs@.len(),
                s == dot_prefix(xs@, row@, k as int),
            decreases xs@.len() - k,
        {
            s = add_bits(s, mul_bits(xs[k], row[k]));
            k = k + 1;
        }
        add_bits(s, mul_bits(ONE_BITS, row[xs.len()]))
    }

    /// One layer of the forward pass: every row's activated unit sum.
    #[verifier::loop_isolation(false)]
    fn layer_forward(xs: &Vec<u64>, layer: &Vec<Vec<u64>>) -> (r: Vec<u64>)
        requires
            forall|j: int|
                0 <= j < layer@.len() ==> (#[trigger] layer@[j])@.len() == xs@.len() + 1,
        ensures
            r@ == layer_spec(xs@, Seq::new(layer@.len(), |j: int| layer@[j]@)),
            r@.len() == layer@.len(),
    {
        let mut out: Vec<u64> = Vec::new();
        let mut j: usize = 0;
        while j < layer.len()
            invariant
                j <= layer@.len(),
                out@.len() == j,
                forall|t: int|
                    0 <= t < j ==> out@[t] == activation_spec(
                        unit_sum_spec(xs@, (#[trigger] layer@[t])@),
                    ),
            decreases layer@.len() - j,
        {
            out.push(Self::relu(Self::unit_sum(xs, &layer[j])));
            j = j + 1;
        }
        proof {
            assert(out@ =~= layer_spec(xs@, Seq::new(layer@.len(), |t: int| layer@[t]@)));
        }
        out
    }

    /// The forward pass. Treats the two inputs as the initial activated
    /// vector, pushes it through the hidden layer and then the output layer,
    /// and returns the single activated output. Reads the weights and
    /// mutates nothing.
    pub fn decide(&self, input: &[u64]) -> (r: Vec<u64>)
        requires
            self.wf(),
            input@.len() == 2,
        ensures
            r@ == decide_spec(self@, input@),
            r@.len() == 1,
    {
        let mut cur: Vec<u64> = Vec::new();
        cur.push(input[0]);
        cur.push(input[1]);
        proof {
            assert(cur@ =~= input@);
            assert forall|j: int|
                0 <= j < self.weights@[0]@.len() implies (#[trigger] self.weights@[0]@[j])@.len()
                == cur@.len() + 1 by {
                assert(self@[0][j] == self.weights@[0]@[j]@);
            }
        }
        let hidden = Self::layer_forward(&cur, &self.weights[0]);
        proof {
            assert(Seq::new(self.weights@[0]@.len(), |j: int| self.weights@[0]@[j]@) =~= self@[0]);
            assert(hidden@ == layer_spec(input@, self@[0]));
        }
        let out = Self::layer_forward(&hidden, &self.weights[1]);
        proof {
            assert(Seq::new(self.weights@[1]@.len(), |j: int| self.weights@[1]@[j]@) =~= self@[1]);
            assert(out@ == decide_spec(self@, input@));
        }
        out
    }

    /// One step of gradient descent on a single labeled example: recomputes
    /// the forward pass while keeping every pre-activation sum, derives the
    /// gradient of the squared error through the chain rule, and decrements
    /// every weight by its gradient. The new weights are pinned down exactly
    /// by `train_spec`.
    #[verifier::loop_isolation(false)]
    pub fn train(&mut self, input: &[u64], target: u64)
        requires
            old(self).wf(),
            input@.len() == 2,
        ensures
            final(self)@ == train_spec(old(self)@, input@, target),
            final(self).wf(),
    {
        let ghost w0: Seq<Seq<Seq<u64>>> = self@;

        // The input layer, as the initial activated vector.
        let mut a0: Vec<u64> = Vec::new();
        a0.push(input[0]);
        a0.push(input[1]);
        proof {
            assert(a0@ =~= input@);
        }

        // Forward pass, keeping both the sums and the activations.
        let mut u_hidden: Vec<u64> = Vec::new();
        let mut a_hidden: Vec<u64> = Vec::new();
        let mut j: usize = 0;
        while j < 3
            invariant
                j <= 3,
                u_hidden@.len() == j,
                a_hidden@.len() == j,
                forall|t: int| 0 <= t < j ==> u_hidden@[t] == hidden_sum_spec(w0, input@, t),
                forall|t: int| 0 <= t < j ==> a_hidden@[t] == hidden_act_spec(w0, input@, t),
            decreases 3 - j,
        {
            proof {
                assert(self@[0][j as int] == self.weights@[0]@[j as int]@);
            }
            let s = Self::unit_sum(&a0, &self.weights[0][j]);
            u_hidden.push(s);
            a_hidden.push(Self::relu(s));
            j = j + 1;
        }
        proof {
            assert(a_hidden@ =~= layer_spec(input@, w0[0]));
            assert(self@[1][0] == self.weights@[1]@[0]@);
        }
        let u_out = Self::unit_sum(&a_hidden, &self.weights[1][0]);
        let a_out = Self::relu(u_out);
        proof {
            assert(u_out == output_sum_spec(w0, input@));
            assert(a_out == prediction_spec(w0, input@));
        }

        // The error signal at the output, already scaled by the learning rate.
        let e_out = mul_bits(
            mul_bits(mul_bits(NEG_TWO_BITS, sub_bits(target, a_out)), Self::d_relu(u_out)),
            RATE_BITS,
        );
        proof {
            assert(e_out == output_error_spec(w0, input@, target));
        }

        // The gradients: one per output-layer weight, one row per hidden unit.
        let mut delta_out: Vec<u64> = Vec::new();
        let mut delta_hidden: Vec<Vec<u64>> = Vec::new();
        let mut i: usize = 0;
        while i < 3
            invariant
                i <= 3,
                delta_out@.len() == i,
                delta_hidden@.len() == i,
                forall|t: int|
                    0 <= t < i ==> delta_out@[t] == output_delta_spec(w0, input@, target, t),
                forall|t: int| 0 <= t < i ==> (#[trigger] delta_hidden@[t])@.len() == 3,
                forall|t: int, k: int|
                    0 <= t < i && 0 <= k < 3 ==> (#[trigger] delta_hidden@[t]@[k])
                        == hidden_delta_spec(w0, input@, target, t, k),
            decreases 3 - i,
        {
            delta_out.push(mul_bits(e_out, a_hidden[i]));
            proof {
                assert(self@[1][0] == self.weights@[1]@[0]@);
            }
            let e_i = mul_bits(mul_bits(e_out, self.weights[1][0][i]), Self::d_relu(u_hidden[i]));
            proof {
                assert(e_i == hidden_error_spec(w0, input@, target, i as int));
            }
            let mut row: Vec<u64> = Vec::new();
            row.push(add_bits(ZERO_BITS, div_bits(mul_bits(e_i, a0[0]), THREE_BITS)));
            row.push(add_bits(ZERO_BITS, div_bits(mul_bits(e_i, a0[1]), THREE_BITS)));
            row.push(add_bits(ZERO_BITS, div_bits(e_i, THREE_BITS)));
            delta_hidden.push(row);
            i = i + 1;
        }
        delta_out.push(e_out);
        proof {
            assert(delta_out@[3] == output_delta_spec(w0, input@, target, 3));
        }

        // Update: every weight decremented by its gradient.
        let mut new_out_row: Vec<u64> = Vec::new();
        let mut k: usize = 0;
        while k < 4
            invariant
                k <= 4,
                new_out_row@.len() == k,
                forall|t: int|
                    0 <= t < k ==> new_out_row@[t] == f64_sub(
                        w0[1][0][t],
                        output_delta_spec(w0, input@, target, t),
                    ),
            decreases 4 - k,
        {
            proof {
                assert(self@[1][0] == self.weights@[1]@[0]@);
            }
            new_out_row.push(sub_bits(self.weights[1][0][k], delta_out[k]));
            k = k + 1;
        }
        let mut new_hidden: Vec<Vec<u64>> = Vec::new();
        let mut j2: usize = 0;
        while j2 < 3
            invariant
                j2 <= 3,
                new_hidden@.len() == j2,
                forall|t: int| 0 <= t < j2 ==> (#[trigger] new_hidden@[t])@.len() == 3,
                forall|t: int, k2: int|
                    0 <= t < j2 && 0 <= k2 < 3 ==> (#[trigger] new_hidden@[t]@[k2]) == f64_sub(
                        w0[0][t][k2],
                        hidden_delta_spec(w0, input@, target, t, k2),
                    ),
            decreases 3 - j2,
        {
            let mut nrow: Vec<u64> = Vec::new();
            let mut k2: usize = 0;
            while k2 < 3
                invariant
                    k2 <= 3,
                    nrow@.len() == k2,
                    forall|t: int|
                        0 <= t < k2 ==> nrow@[t] == f64_sub(
                            w0[0][j2 as int][t],
                            hidden_delta_spec(w0, input@, target, j2 as int, t),
                        ),
                decreases 3 - k2,
            {
                proof {
                    assert(self@[0][j2 as int] == self.weights@[0]@[j2 as int]@);
                }
                nrow.push(sub_bits(self.weights[0][j2][k2], delta_hidden[j2][k2]));
                k2 = k2 + 1;
            }
            new_hidden.push(nrow);
            j2 = j2 + 1;
        }

        // Install the new matrices.
        let mut out_layer: Vec<Vec<u64>> = Vec::new();
        out_layer.push(new_out_row);
        let mut new_weights: Vec<Vec<Vec<u64>>> = Vec::new();
        new_weights.push(new_hidden);
        new_weights.push(out_layer);
        self.weights = new_weights;
        proof {
            let tw = train_spec(w0, input@, target);
            assert forall|t: int| 0 <= t < 3 implies #[trigger] self@[0][t] == tw[0][t] by {
                assert(self@[0][t] == new_hidden@[t]@);
                assert(new_hidden@[t]@ =~= tw[0][t]);
            }
            assert(self@[1][0] == out_layer@[0]@);
            assert(self@[1][0] =~= tw[1][0]);
            assert(self@[0] =~= tw[0]);
            assert(self@[1] =~= tw[1]);
            assert(self@ =~= tw);
        }
    }
}

} // verus!
