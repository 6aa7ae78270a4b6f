//! Laws the network obeys, stated over the same spec functions that the
//! contracts of `decide` and `train` use, and proved once and for all.

use vstd::prelude::*;
use crate::network::{
    decide_spec, hidden_act_spec, hidden_delta_spec, output_delta_spec, output_error_spec,
    prediction_spec, train_spec, wf_weights,
};
use crate::fp::{f64_mul, f64_sub};

verus! {

/// The weights after a whole sequence of training steps — each lesson an
/// input pair and a target — applied in order.
pub open spec fn train_many_spec(
    w: Seq<Seq<Seq<u64>>>,
    lessons: Seq<(Seq<u64>, u64)>,
) -> Seq<Seq<Seq<u64>>>
    decreases lessons.len(),
{
    if lessons.len() == 0 {
        w
    } else {
        train_many_spec(train_spec(w, lessons[0].0, lessons[0].1), lessons.drop_first())
    }
}

/// Determinism of the forward pass: with bit-identical weights and
/// bit-identical inputs, the output is bit-identical.
pub proof fn lemma_decide_deterministic(
    w1: Seq<Seq<Seq<u64>>>,
    w2: Seq<Seq<Seq<u64>>>,
    x1: Seq<u64>,
    x2: Seq<u64>,
)
    requires
        w1 == w2,
        x1 == x2,
    ensures
        decide_spec(w1, x1) == decide_spec(w2, x2),
{
}

/// The forward pass of a well-formed network yields exactly one value.
pub proof fn lemma_decide_output_len(w: Seq<Seq<Seq<u64>>>, xs: Seq<u64>)
    requires
        wf_weights(w),
    ensures
        decide_spec(w, xs).len() == 1,
{
}

/// Shape preservation: one training step leaves the weight matrices with
/// their fixed shape — two layers, three rows of three and one row of four.
pub proof fn lemma_train_preserves_shape(w: Seq<Seq<Seq<u64>>>, xs: Seq<u64>, target: u64)
    requires
        wf_weights(w),
    ensures
        wf_weights(train_spec(w, xs, target)),
{
}

/// Shape preservation over any number of training steps: however many
/// lessons are applied, the weight matrices keep their fixed shape.
pub proof fn lemma_train_many_preserves_shape(
    w: Seq<Seq<Seq<u64>>>,
    lessons: Seq<(Seq<u64>, u64)>,
)
    requires
        wf_weights(w),
    ensures
        wf_weights(train_many_spec(w, lessons)),
    decreases lessons.len(),
{
    if lessons.len() > 0 {
        lemma_train_preserves_shape(w, lessons[0].0, lessons[0].1);
        lemma_train_many_preserves_shape(
            train_spec(w, lessons[0].0, lessons[0].1),
            lessons.drop_first(),
        );
    }
}

/// The prediction that the training step computes internally is exactly the
/// output that the forward pass returns.
pub proof fn lemma_prediction_matches_decide(w: Seq<Seq<Seq<u64>>>, xs: Seq<u64>)
    requires
        wf_weights(w),
    ensures
        decide_spec(w, xs) == seq![prediction_spec(w, xs)],
{
    assert(decide_spec(w, xs) =~= seq![prediction_spec(w, xs)]);
}

/// Update magnitude for the output layer: after one training step, each
/// output-layer weight has moved by exactly the error signal scaled by the
/// corresponding hidden activation — by the bare error signal for the bias.
pub proof fn lemma_output_weight_update(
    w: Seq<Seq<Seq<u64>>>,
    xs: Seq<u64>,
    target: u64,
    k: int,
)
    requires
        wf_weights(w),
        0 <= k < 4,
    ensures
        train_spec(w, xs, target)[1][0][k] == f64_sub(w[1][0][k], output_delta_spec(w, xs, target, k)),
        k < 3 ==> output_delta_spec(w, xs, target, k) == f64_mul(
            output_error_spec(w, xs, target),
            hidden_act_spec(w, xs, k),
        ),
        k == 3 ==> output_delta_spec(w, xs, target, k) == output_error_spec(w, xs, target),
{
}

/// Update magnitude for the hidden layer: after one training step, each
/// hidden-layer weight has moved by exactly its damped gradient.
pub proof fn lemma_hidden_weight_update(
    w: Seq<Seq<Seq<u64>>>,
    xs: Seq<u64>,
    target: u64,
    j: int,
    k: int,
)
    requires
        wf_weights(w),
        0 <= j < 3,
        0 <= k < 3,
    ensures
        train_spec(w, xs, target)[0][j][k] == f64_sub(
            w[0][j][k],
            hidden_delta_spec(w, xs, target, j, k),
        ),
{
}

} // verus!
