use perceptron::perceptron::{Perceptron, PerceptronError, UNIT, WEIGHT_UNIT};
use perceptron::point::{label_for, RandomPoint};

fn two_weights(w0: i32, w1: i32, lr: i32) -> Perceptron {
    Perceptron::with_weights(vec![w0, w1], lr)
}

#[test]
fn predict_positive_dot_product() {
    // weights 0.5 and -0.5, inputs 4.0 and 2.0: dot product 1.0 > 0.
    let p = two_weights(WEIGHT_UNIT / 2, -WEIGHT_UNIT / 2, UNIT / 10);
    let g = p.guess(&vec![4 * UNIT, 2 * UNIT]);
    assert_eq!(g, 1);
}

#[test]
fn predict_negative_dot_product() {
    // weights 0.5 and -0.5, inputs 2.0 and 4.0: dot product -1.0 < 0.
    let p = two_weights(WEIGHT_UNIT / 2, -WEIGHT_UNIT / 2, UNIT / 10);
    let g = p.guess(&vec![2 * UNIT, 4 * UNIT]);
    assert_eq!(g, -1);
}

#[test]
fn predict_zero_dot_product_is_negative() {
    // A zero decision statistic counts as -1.
    let p = two_weights(WEIGHT_UNIT, -WEIGHT_UNIT, UNIT / 10);
    let g = p.guess(&vec![3 * UNIT, 3 * UNIT]);
    assert_eq!(g, -1);
}

#[test]
fn dimension_mismatch_is_rejected() {
    let p = two_weights(1, 2, 0);
    assert_eq!(p.try_guess(&vec![5]), Err(PerceptronError::DimensionMismatch));
    assert_eq!(
        p.try_guess(&vec![5, 6, 7]),
        Err(PerceptronError::DimensionMismatch)
    );
    assert_eq!(p.try_guess(&vec![5, 6]), Ok(1));
}

#[test]
fn train_dimension_mismatch_leaves_weights_alone() {
    let mut p = two_weights(7, -7, 100);
    let r = p.try_train(&vec![1, 2, 3], 1);
    assert_eq!(r, Err(PerceptronError::DimensionMismatch));
    assert_eq!(p.weights().clone(), vec![7, -7]);
}

#[test]
fn correct_guess_leaves_weights_unchanged() {
    // dot = 5*10 + 1*(-10) = 40 > 0, so the guess is 1; training on
    // target 1 computes error 0 and must not move any weight.
    let mut p = two_weights(10, -10, 100);
    let inputs = vec![5, 1];
    assert_eq!(p.guess(&inputs), 1);
    p.train(&inputs, 1);
    assert_eq!(p.weights().clone(), vec![10, -10]);
}

#[test]
fn wrong_guess_moves_weights_along_input_signs() {
    // dot = 5*(-10) + (-3)*(-10) + 0 = -20 < 0, guess -1, target 1: the
    // error is 2, so each weight moves by 2 * input * rate.
    let mut p = Perceptron::with_weights(vec![-10, -10, -10], 100);
    let inputs = vec![5, -3, 0];
    assert_eq!(p.guess(&inputs), -1);
    p.train(&inputs, 1);
    let w = p.weights().clone();
    assert!(w[0] > -10);
    assert!(w[1] < -10);
    assert_eq!(w[2], -10);
    assert_eq!(w, vec![-10 + 2 * 5 * 100, -10 + 2 * (-3) * 100, -10]);
}

#[test]
fn wrong_guess_other_direction() {
    // dot = 4*10 = 40 > 0, guess 1, target -1: error -2.
    let mut p = Perceptron::with_weights(vec![10], 50);
    let inputs = vec![4];
    assert_eq!(p.guess(&inputs), 1);
    p.train(&inputs, -1);
    assert_eq!(p.weights().clone(), vec![10 - 2 * 4 * 50]);
}

#[test]
fn zero_learning_rate_makes_training_a_no_op() {
    // Degenerate but allowed: with rate 0 even a wrong guess moves nothing.
    let mut p = two_weights(-10, -10, 0);
    let inputs = vec![5, 5];
    assert_eq!(p.guess(&inputs), -1);
    p.train(&inputs, 1);
    assert_eq!(p.weights().clone(), vec![-10, -10]);
}

#[test]
fn overflowing_update_is_rejected_and_weights_kept() {
    let mut p = Perceptron::with_weights(vec![2000000000], 1000000);
    let inputs = vec![1000000];
    assert_eq!(p.guess(&inputs), 1);
    let r = p.try_train(&inputs, -1);
    assert_eq!(r, Err(PerceptronError::WeightOverflow));
    assert_eq!(p.weights().clone(), vec![2000000000]);
}

#[test]
fn fresh_perceptron_has_unit_bounded_weights() {
    let p = Perceptron::new(2, UNIT / 10);
    assert_eq!(p.weight_count(), 2);
    assert_eq!(p.learning_rate(), UNIT / 10);
    for &w in p.weights().iter() {
        assert!(-WEIGHT_UNIT <= w && w < WEIGHT_UNIT);
    }
}

#[test]
fn training_converges_on_separable_points() {
    // Twenty fixed points, all at least 100 away from the diagonal, labeled
    // by the ground-truth rule. A fresh perceptron trained for 1000 passes
    // must end up classifying every one of them correctly.
    let coords: [(i32, i32); 20] = [
        (300, 100),
        (450, 50),
        (200, 400),
        (120, 350),
        (500, 250),
        (80, 220),
        (410, 180),
        (30, 160),
        (260, 20),
        (140, 260),
        (480, 320),
        (10, 130),
        (350, 200),
        (90, 480),
        (420, 40),
        (160, 300),
        (240, 110),
        (60, 390),
        (380, 30),
        (110, 470),
    ];
    let points: Vec<RandomPoint> = coords
        .iter()
        .map(|&(x, y)| RandomPoint {
            x,
            y,
            label: label_for(x, y),
        })
        .collect();

    let mut p = Perceptron::new(2, 100);
    for _pass in 0..1000 {
        for pt in points.iter() {
            let inputs = vec![pt.x, pt.y];
            let r = p.try_train(&inputs, pt.label);
            assert_eq!(r, Ok(()));
        }
    }

    let correct = points
        .iter()
        .filter(|pt| p.classifies_correctly(pt))
        .count();
    assert_eq!(correct, points.len());
}
