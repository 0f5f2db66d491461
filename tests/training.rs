use perc::data::Example;
use perc::neuron::{training_output, Mode, TrainState, Trainer};

fn b(x: f32) -> u32 {
    x.to_bits()
}

fn f(bits: u32) -> f32 {
    f32::from_bits(bits)
}

fn ex(x1: f32, x2: f32, y: f32) -> Example {
    Example { x1: b(x1), x2: b(x2), y: b(y) }
}

fn net(w: &[f32; 3], x1: f32, x2: f32) -> f32 {
    w[2] + w[0] * x1 + w[1] * x2
}

/// Runs the training loop from the given weights; returns the final weights
/// and the final state.
fn run(examples: &[Example], mut w: [f32; 3], mode: Mode, bipolar: bool, rate: f32, max: usize, thr: f32) -> ([f32; 3], TrainState) {
    let mut t = Trainer::new(max, mode, b(thr));
    while t.running() {
        for e in examples {
            let out = f(training_output(mode, b(net(&w, f(e.x1), f(e.x2))), bipolar));
            let err = (f(e.y) - out).powi(2);
            w[0] += rate * err * f(e.x1);
            w[1] += rate * err * f(e.x2);
            w[2] += rate * err;
        }
        let mut total = 0f32;
        for e in examples {
            let out = f(training_output(mode, b(net(&w, f(e.x1), f(e.x2))), bipolar));
            total += (f(e.y) - out).powi(2);
        }
        t.end_epoch(b(total));
    }
    (w, t.state)
}

#[test]
fn perceptron_learns_and() {
    let and = [ex(0.0, 0.0, 0.0), ex(0.0, 1.0, 0.0), ex(1.0, 0.0, 0.0), ex(1.0, 1.0, 1.0)];
    let (w, state) = run(&and, [0.2, 0.2, -0.5], Mode::Perceptron, false, 0.1, 100, 0.0);
    assert_eq!(state, TrainState::Converged(0));
    assert!((w[0] - 0.3).abs() < 1e-6);
    assert!((w[1] - 0.3).abs() < 1e-6);
    assert!((w[2] + 0.4).abs() < 1e-6);
}

#[test]
fn perceptron_never_fits_xor() {
    let xor = [ex(-1.0, -1.0, -1.0), ex(-1.0, 1.0, 1.0), ex(1.0, -1.0, 1.0), ex(1.0, 1.0, -1.0)];
    for start in [[0.2f32, 0.2, -0.5], [-1.0, 0.5, 0.0], [0.0, 0.0, 0.0]].iter() {
        let (_, state) = run(&xor, *start, Mode::Perceptron, true, 0.1, 25, 0.0);
        assert_eq!(state, TrainState::MaxEpochsReached);
    }
    let xor01 = [ex(0.0, 0.0, 0.0), ex(0.0, 1.0, 1.0), ex(1.0, 0.0, 1.0), ex(1.0, 1.0, 0.0)];
    let (_, state) = run(&xor01, [0.2, 0.2, -0.5], Mode::Perceptron, true, 0.1, 25, 0.0);
    assert_eq!(state, TrainState::MaxEpochsReached);
}

#[test]
fn empty_training_set_converges_at_once() {
    let (w, state) = run(&[], [0.7, -0.1, 0.3], Mode::Perceptron, false, 0.1, 5, 0.0);
    assert_eq!(state, TrainState::Converged(0));
    assert_eq!(w, [0.7, -0.1, 0.3]);
}

#[test]
fn adaline_stops_under_threshold() {
    let data = [ex(1.0, 0.0, 1.0)];
    // net 0.9 from the start; error 0.01 is under the threshold 0.5
    let (_, state) = run(&data, [0.4, 0.0, 0.5], Mode::Adaline, false, 0.1, 10, 0.5);
    assert_eq!(state, TrainState::Converged(0));
}
