//! Labelled samples of the elementary logical functions, and the plan for
//! drawing initial weights.
use vstd::prelude::*;
use crate::bits32::{eq, eq_spec, is_zero, le_spec, lt, lt_spec, ONE, ZERO};
use crate::config::{DistKind, DistSpec};
use crate::neuron::{truth_spec, truth_value};

verus! {

/// A two-input logical function.
#[derive(Clone, Copy, Debug, PartialEq, Eq, Structural)]
pub enum BoolFunc {
    And,
    Or,
    Xor,
}

pub open spec fn func_of(name: Seq<char>) -> Option<BoolFunc> {
    if name == "and"@ {
        Some(BoolFunc::And)
    } else if name == "or"@ {
        Some(BoolFunc::Or)
    } else if name == "xor"@ {
        Some(BoolFunc::Xor)
    } else {
        None
    }
}

pub open spec fn apply_spec(f: BoolFunc, a: bool, b: bool) -> bool {
    match f {
        BoolFunc::And => a && b,
        BoolFunc::Or => a || b,
        BoolFunc::Xor => a != b,
    }
}

fn same_text(s: &str, word: &str) -> (r: bool)
    ensures
        r == (s@ == word@),
{
    let n = s.unicode_len();
    if n != word.unicode_len() {
        return false;
    }
    let mut i: usize = 0;
    while i < n
        invariant
            i <= n,
            n == s@.len(),
            n == word@.len(),
            forall|k: int| 0 <= k < i ==> s@[k] == word@[k],
        decreases n - i,
    {
        if s.get_char(i) != word.get_char(i) {
            return false;
        }
        i = i + 1;
    }
    assert(s@ =~= word@);
    true
}

/// The function a name (`and`, `or`, `xor`) denotes.
pub fn parse_func(name: &str) -> (r: Option<BoolFunc>)
    ensures
        r == func_of(name@),
{
    if same_text(name, "and") {
        Some(BoolFunc::And)
    } else if same_text(name, "or") {
        Some(BoolFunc::Or)
    } else if same_text(name, "xor") {
        Some(BoolFunc::Xor)
    } else {
        None
    }
}

/// Applies the logical function.
pub fn apply(f: BoolFunc, a: bool, b: bool) -> (r: bool)
    ensures
        r == apply_spec(f, a, b),
{
    match f {
        BoolFunc::And => a && b,
        BoolFunc::Or => a || b,
        BoolFunc::Xor => a != b,
    }
}

/// One generated example before any noise: inputs and label as
/// single-precision bit patterns.
#[derive(Clone, Copy, Debug, PartialEq, Eq, Structural)]
pub struct Sample {
    pub x1: u32,
    pub x2: u32,
    pub y: u32,
}

pub open spec fn sample_spec(f: BoolFunc, a: bool, b: bool, bipolar: bool) -> Sample {
    Sample {
        x1: truth_spec(a, bipolar),
        x2: truth_spec(b, bipolar),
        y: truth_spec(apply_spec(f, a, b), bipolar),
    }
}

/// The example for the drawn inputs `a` and `b`: each of them and the
/// function's value mapped to the chosen convention.
pub fn make_sample(f: BoolFunc, a: bool, b: bool, bipolar: bool) -> (r: Sample)
    ensures
        r == sample_spec(f, a, b, bipolar),
{
    Sample {
        x1: truth_value(a, bipolar),
        x2: truth_value(b, bipolar),
        y: truth_value(apply(f, a, b), bipolar),
    }
}

/// Noise is added to a sample when the uniform draw from `[0, 1)` falls
/// below the noise amount.
pub fn noisy(draw: u32, noise_amt: u32) -> (r: bool)
    ensures
        r == lt_spec(draw, noise_amt),
{
    lt(draw, noise_amt)
}

/// With a noise amount of zero no uniform draw (which lies in `[0, 1)`)
/// adds noise, and samples of `or` under the unipolar convention are then
/// one of `(0,0,0)`, `(0,1,1)`, `(1,0,1)`, `(1,1,1)`, with label `1` exactly
/// when one of the drawn inputs is true.
pub proof fn or_samples_are_truth_table(a: bool, b: bool, draw: u32, noise_amt: u32)
    requires
        le_spec(ZERO, draw),
        is_zero(noise_amt),
    ensures
        !lt_spec(draw, noise_amt),
        ({
            let s = sample_spec(BoolFunc::Or, a, b, false);
            &&& s == (Sample { x1: ZERO, x2: ZERO, y: ZERO })
                || s == (Sample { x1: ZERO, x2: ONE, y: ONE })
                || s == (Sample { x1: ONE, x2: ZERO, y: ONE })
                || s == (Sample { x1: ONE, x2: ONE, y: ONE })
            &&& (s.y == ONE <==> (a || b))
        }),
{
}

/// How the three initial weights are obtained from a validated distribution.
#[derive(Clone, Copy, Debug, PartialEq, Eq, Structural)]
pub enum WeightDraw {
    /// Three draws from normal(mean, stddev).
    Normal { mean: u32, stddev: u32 },
    /// Three draws from uniform[low, high), with `low < high`.
    Uniform { low: u32, high: u32 },
    /// A uniform distribution whose bounds are equal holds one value only.
    Constant(u32),
}

pub open spec fn weight_draw_spec(d: DistSpec) -> WeightDraw {
    match d.kind {
        DistKind::Normal => WeightDraw::Normal { mean: d.param1, stddev: d.param2 },
        DistKind::Uniform => if eq_spec(d.param1, d.param2) {
            WeightDraw::Constant(d.param1)
        } else {
            WeightDraw::Uniform { low: d.param1, high: d.param2 }
        },
    }
}

/// The draw for a validated distribution; a uniform one with `min < max`
/// gives bounds that a half-open range accepts.
pub fn weight_draw(d: DistSpec) -> (r: WeightDraw)
    requires
        crate::config::params_valid(d.kind, d.param1, d.param2),
    ensures
        r == weight_draw_spec(d),
        r matches WeightDraw::Uniform { low, high } ==> lt_spec(low, high),
        r matches WeightDraw::Normal { mean: _, stddev } ==> le_spec(ZERO, stddev),
{
    match d.kind {
        DistKind::Normal => WeightDraw::Normal { mean: d.param1, stddev: d.param2 },
        DistKind::Uniform => if eq(d.param1, d.param2) {
            WeightDraw::Constant(d.param1)
        } else {
            WeightDraw::Uniform { low: d.param1, high: d.param2 }
        },
    }
}

} // verus!
