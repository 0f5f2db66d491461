use perc::bits32::{abs, eq, le, lt, nan, NEG_ONE, ONE, ZERO};
use perc::neuron::{activate, count_errors, should_stop, training_output, truth_value, Mode, TrainState, Trainer};

fn b(x: f32) -> u32 {
    x.to_bits()
}

#[test]
fn bits_compare_like_floats() {
    let vals = [0.0f32, -0.0, 1.0, -1.0, 0.5, -2.5, f32::INFINITY, f32::NEG_INFINITY, f32::NAN, 1e-40, -1e-40];
    for &x in vals.iter() {
        for &y in vals.iter() {
            assert_eq!(lt(b(x), b(y)), x < y, "{} < {}", x, y);
            assert_eq!(eq(b(x), b(y)), x == y, "{} == {}", x, y);
        }
        assert_eq!(nan(b(x)), x.is_nan());
        assert_eq!(abs(b(x)), x.abs().to_bits());
    }
    assert_eq!(ONE, b(1.0));
    assert_eq!(NEG_ONE, b(-1.0));
    assert_eq!(ZERO, b(0.0));
}

#[test]
fn activation_boundary() {
    for &bipolar in [false, true].iter() {
        let f = if bipolar { b(-1.0) } else { b(0.0) };
        assert_eq!(activate(b(0.0), bipolar), f);
        assert_eq!(activate(b(-0.0), bipolar), f);
        assert_eq!(activate(b(-0.25), bipolar), f);
        assert_eq!(activate(b(f32::NAN), bipolar), f);
        assert_eq!(activate(b(1e-40), bipolar), b(1.0));
        assert_eq!(activate(b(3.5), bipolar), b(1.0));
    }
}

#[test]
fn truth_values_follow_convention() {
    assert_eq!(truth_value(true, false), b(1.0));
    assert_eq!(truth_value(false, false), b(0.0));
    assert_eq!(truth_value(true, true), b(1.0));
    assert_eq!(truth_value(false, true), b(-1.0));
}

#[test]
fn training_output_by_mode() {
    assert_eq!(training_output(Mode::Adaline, b(0.75), true), b(0.75));
    assert_eq!(training_output(Mode::Perceptron, b(0.75), true), b(1.0));
    assert_eq!(training_output(Mode::Perceptron, b(-0.75), true), b(-1.0));
    assert_eq!(training_output(Mode::Perceptron, b(-0.75), false), b(0.0));
}

#[test]
fn termination_test() {
    assert!(should_stop(Mode::Perceptron, b(0.0), b(1.0)));
    assert!(should_stop(Mode::Perceptron, b(-0.0), b(0.0)));
    assert!(!should_stop(Mode::Perceptron, b(0.5), b(1.0)));
    assert!(should_stop(Mode::Adaline, b(0.5), b(1.0)));
    assert!(should_stop(Mode::Adaline, b(-0.5), b(1.0)));
    assert!(!should_stop(Mode::Adaline, b(1.0), b(1.0)));
    assert!(!should_stop(Mode::Adaline, b(f32::NAN), b(1.0)));
}

#[test]
fn trainer_runs_to_limit() {
    let mut t = Trainer::new(3, Mode::Perceptron, b(0.0));
    assert_eq!(t.state, TrainState::Epoch(0));
    t.end_epoch(b(2.0));
    assert_eq!(t.state, TrainState::Epoch(1));
    t.end_epoch(b(1.0));
    assert_eq!(t.state, TrainState::Epoch(2));
    assert!(t.running());
    t.end_epoch(b(1.0));
    assert_eq!(t.state, TrainState::MaxEpochsReached);
    assert!(!t.running());
}

#[test]
fn trainer_converges_early() {
    let mut t = Trainer::new(10, Mode::Adaline, b(0.5));
    t.end_epoch(b(3.0));
    t.end_epoch(b(0.25));
    assert_eq!(t.state, TrainState::Converged(1));
    assert!(!t.running());
}

#[test]
fn trainer_with_no_epochs() {
    let t = Trainer::new(0, Mode::Perceptron, b(0.0));
    assert_eq!(t.state, TrainState::MaxEpochsReached);
}

#[test]
fn validator_counts_mismatches() {
    // nets 2.0, -1.0, 0.0, 3.0 give 1, 0, 0, 1 (unipolar)
    let nets = vec![b(2.0), b(-1.0), b(0.0), b(3.0)];
    let labels = vec![b(1.0), b(1.0), b(0.0), b(0.0)];
    assert_eq!(count_errors(&nets, &labels, false), 2);
    let labels_all_right = vec![b(1.0), b(0.0), b(-0.0), b(1.0)];
    assert_eq!(count_errors(&nets, &labels_all_right, false), 0);
    let bipolar_labels = vec![b(1.0), b(-1.0), b(-1.0), b(-1.0)];
    assert_eq!(count_errors(&nets, &bipolar_labels, true), 1);
    assert_eq!(count_errors(&vec![], &vec![], true), 0);
}

#[test]
fn less_or_equal() {
    assert!(le(b(0.0), b(-0.0)));
    assert!(le(b(-1.0), b(0.0)));
    assert!(!le(b(1.0), b(0.0)));
    assert!(!le(b(0.0), b(f32::NAN)));
}

#[test]
fn perceptron_with_nonzero_errors_never_converges() {
    let mut t = Trainer::new(4, Mode::Perceptron, b(100.0));
    let mut epochs = 0;
    while t.running() {
        assert_eq!(t.state, TrainState::Epoch(epochs));
        t.end_epoch(b(4.0));
        epochs += 1;
    }
    assert_eq!(epochs, 4);
    assert_eq!(t.state, TrainState::MaxEpochsReached);
}
