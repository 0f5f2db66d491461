//! The threshold unit: activation, the error signal of each training mode,
//! the termination test, the epoch state machine and validation counts.
use vstd::prelude::*;
use crate::bits32::{
    abs, eq, eq_spec, is_positive, is_zero, lt, lt_spec, abs_spec, NEG_ONE, ONE, ZERO,
};

verus! {

/// The value that stands for `b` under the unipolar ({0, 1}) or bipolar
/// ({-1, 1}) convention.
pub open spec fn truth_spec(b: bool, bipolar: bool) -> u32 {
    if b {
        ONE
    } else if bipolar {
        NEG_ONE
    } else {
        ZERO
    }
}

/// The thresholded output for a given net value: "true" exactly when the net
/// is strictly positive.
pub open spec fn activate_spec(net: u32, bipolar: bool) -> u32 {
    truth_spec(is_positive(net), bipolar)
}

/// The value standing for `b` under the chosen convention.
pub fn truth_value(b: bool, bipolar: bool) -> (r: u32)
    ensures
        r == truth_spec(b, bipolar),
{
    if b {
        ONE
    } else if bipolar {
        NEG_ONE
    } else {
        ZERO
    }
}

/// Thresholds a net value: `1.0` when `net > 0.0`, otherwise `-1.0` (bipolar)
/// or `0.0` (unipolar). A net of exactly zero, of either sign, or a NaN,
/// gives the "false" value.
pub fn activate(net: u32, bipolar: bool) -> (r: u32)
    ensures
        r == activate_spec(net, bipolar),
        is_positive(net) ==> r == ONE,
        !is_positive(net) && bipolar ==> r == NEG_ONE,
        !is_positive(net) && !bipolar ==> r == ZERO,
{
    truth_value(lt(ZERO, net), bipolar)
}

/// The training rule: perceptron mode learns from the thresholded output,
/// ADALINE mode from the raw net value.
#[derive(Clone, Copy, Debug, PartialEq, Eq, Structural)]
pub enum Mode {
    Perceptron,
    Adaline,
}

pub open spec fn output_spec(mode: Mode, net: u32, bipolar: bool) -> u32 {
    match mode {
        Mode::Perceptron => activate_spec(net, bipolar),
        Mode::Adaline => net,
    }
}

/// The output `out` that the error `(y - out)^2` is taken against, for a
/// given net value.
pub fn training_output(mode: Mode, net: u32, bipolar: bool) -> (r: u32)
    ensures
        r == output_spec(mode, net, bipolar),
{
    match mode {
        Mode::Perceptron => activate(net, bipolar),
        Mode::Adaline => net,
    }
}

/// Training stops after an epoch whose total error is exactly zero, or, in
/// ADALINE mode, whose absolute total error is below the threshold.
pub open spec fn stop_spec(mode: Mode, total_err: u32, threshold: u32) -> bool {
    (mode == Mode::Adaline && lt_spec(abs_spec(total_err), threshold)) || is_zero(total_err)
}

/// The termination test applied after each epoch.
pub fn should_stop(mode: Mode, total_err: u32, threshold: u32) -> (r: bool)
    ensures
        r == stop_spec(mode, total_err, threshold),
{
    let adaline = match mode {
        Mode::Adaline => true,
        Mode::Perceptron => false,
    };
    (adaline && lt(abs(total_err), threshold)) || eq(total_err, ZERO)
}

/// Where training stands: running epoch `k`, or finished.
#[derive(Clone, Copy, Debug, PartialEq, Eq, Structural)]
pub enum TrainState {
    Epoch(usize),
    Converged(usize),
    MaxEpochsReached,
}

/// The epoch loop's control: the epoch limit, the mode and the ADALINE
/// threshold, and the current state.
#[derive(Clone, Copy, Debug)]
pub struct Trainer {
    pub max_epochs: usize,
    pub mode: Mode,
    pub threshold: u32,
    pub state: TrainState,
}

/// The state after a running epoch ends with the given total error.
pub open spec fn next_state(t: Trainer, total_err: u32) -> TrainState {
    let k = t.state->Epoch_0;
    if stop_spec(t.mode, total_err, t.threshold) {
        TrainState::Converged(k)
    } else if k + 1 < t.max_epochs {
        TrainState::Epoch((k + 1) as usize)
    } else {
        TrainState::MaxEpochsReached
    }
}

/// The state of a fresh trainer after the epochs whose total errors are the
/// first `n` of `errs`, each applied while training is still running.
pub open spec fn state_after(
    max_epochs: usize,
    mode: Mode,
    threshold: u32,
    errs: Seq<u32>,
    n: nat,
) -> TrainState
    decreases n,
{
    if n == 0 {
        if max_epochs > 0 {
            TrainState::Epoch(0)
        } else {
            TrainState::MaxEpochsReached
        }
    } else {
        let prev = state_after(max_epochs, mode, threshold, errs, (n - 1) as nat);
        let t = Trainer { max_epochs, mode, threshold, state: prev };
        if t.is_running() {
            next_state(t, errs[n - 1])
        } else {
            prev
        }
    }
}

/// In perceptron mode, a run in which no epoch ends with a total error of
/// zero never converges: epoch `n` runs while `n` is below the limit, and
/// after exactly the limit of epochs training ends at the limit.
pub proof fn nonzero_errors_run_to_limit(
    max_epochs: usize,
    threshold: u32,
    errs: Seq<u32>,
    n: nat,
)
    requires
        n <= max_epochs,
        n <= errs.len(),
        forall|i: int| 0 <= i < n ==> !is_zero(#[trigger] errs[i]),
    ensures
        n < max_epochs ==> state_after(max_epochs, Mode::Perceptron, threshold, errs, n)
            == TrainState::Epoch(n as usize),
        n == max_epochs ==> state_after(max_epochs, Mode::Perceptron, threshold, errs, n)
            == TrainState::MaxEpochsReached,
    decreases n,
{
    if n > 0 {
        nonzero_errors_run_to_limit(max_epochs, threshold, errs, (n - 1) as nat);
        assert(!is_zero(errs[n - 1]));
    }
}

impl Trainer {
    pub open spec fn wf(&self) -> bool {
        match self.state {
            TrainState::Epoch(k) => k < self.max_epochs,
            TrainState::Converged(k) => k < self.max_epochs,
            TrainState::MaxEpochsReached => true,
        }
    }

    pub open spec fn is_running(&self) -> bool {
        self.state is Epoch
    }

    /// Starts at epoch 0; with a limit of zero epochs nothing runs.
    pub fn new(max_epochs: usize, mode: Mode, threshold: u32) -> (r: Trainer)
        ensures
            r.wf(),
            r.max_epochs == max_epochs,
            r.mode == mode,
            r.threshold == threshold,
            max_epochs > 0 ==> r.state == TrainState::Epoch(0),
            max_epochs == 0 ==> r.state == TrainState::MaxEpochsReached,
    {
        let state = if max_epochs > 0 {
            TrainState::Epoch(0)
        } else {
            TrainState::MaxEpochsReached
        };
        Trainer { max_epochs, mode, threshold, state }
    }

    /// Whether another epoch is to run.
    pub fn running(&self) -> (r: bool)
        ensures
            r == self.is_running(),
    {
        match self.state {
            TrainState::Epoch(_) => true,
            _ => false,
        }
    }

    /// Ends the current epoch with its total error: converged if the
    /// termination test holds, otherwise on to the next epoch, or finished
    /// when the limit is reached.
    pub fn end_epoch(&mut self, total_err: u32)
        requires
            old(self).wf(),
            old(self).is_running(),
        ensures
            final(self).wf(),
            final(self).max_epochs == old(self).max_epochs,
            final(self).mode == old(self).mode,
            final(self).threshold == old(self).threshold,
            final(self).state == next_state(*old(self), total_err),
    {
        if let TrainState::Epoch(k) = self.state {
            if should_stop(self.mode, total_err, self.threshold) {
                self.state = TrainState::Converged(k);
            } else if k + 1 < self.max_epochs {
                self.state = TrainState::Epoch(k + 1);
            } else {
                self.state = TrainState::MaxEpochsReached;
            }
        }
    }
}

/// Whether the model's thresholded output for a row with this net value
/// equals the row's label (IEEE-754 `==`, no tolerance).
pub open spec fn row_matches(net: u32, label: u32, bipolar: bool) -> bool {
    eq_spec(activate_spec(net, bipolar), label)
}

/// The number of rows among the first `n` whose thresholded output differs
/// from the label.
pub open spec fn mismatches(nets: Seq<u32>, labels: Seq<u32>, bipolar: bool, n: int) -> nat
    decreases n,
{
    if n <= 0 {
        0
    } else {
        mismatches(nets, labels, bipolar, n - 1) + if row_matches(nets[n - 1], labels[n - 1], bipolar) {
            0nat
        } else {
            1nat
        }
    }
}

/// The number of rows among the first `n` whose thresholded output equals the
/// label.
pub open spec fn matches_count(nets: Seq<u32>, labels: Seq<u32>, bipolar: bool, n: int) -> nat
    decreases n,
{
    if n <= 0 {
        0
    } else {
        matches_count(nets, labels, bipolar, n - 1) + if row_matches(nets[n - 1], labels[n - 1], bipolar) {
            1nat
        } else {
            0nat
        }
    }
}

/// Counts the rows of a labelled dataset that the model gets wrong, given
/// the model's net value on each row.
pub fn count_errors(nets: &Vec<u32>, labels: &Vec<u32>, bipolar: bool) -> (r: usize)
    requires
        nets.len() == labels.len(),
    ensures
        r == mismatches(nets@, labels@, bipolar, nets.len() as int),
{
    let mut errors: usize = 0;
    let mut i: usize = 0;
    while i < nets.len()
        invariant
            nets.len() == labels.len(),
            i <= nets.len(),
            errors == mismatches(nets@, labels@, bipolar, i as int),
            errors <= i,
        decreases nets.len() - i,
    {
        if !eq(activate(nets[i], bipolar), labels[i]) {
            errors = errors + 1;
        }
        i = i + 1;
    }
    errors
}

/// A dataset on whose first `n` rows the model is right `k` times has
/// exactly `n - k` errors there.
pub proof fn errors_complement_matches(nets: Seq<u32>, labels: Seq<u32>, bipolar: bool, n: int)
    requires
        0 <= n <= nets.len(),
        n <= labels.len(),
    ensures
        mismatches(nets, labels, bipolar, n) == n - matches_count(nets, labels, bipolar, n),
    decreases n,
{
    if n > 0 {
        errors_complement_matches(nets, labels, bipolar, n - 1);
    }
}

} // verus!
