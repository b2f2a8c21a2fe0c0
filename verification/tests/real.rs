use perceptron_rs::{Dot, Perceptron, Sample, Scalar};

/// Double precision numbers as the perceptron's scalar. The members named `spec_`
/// and `times_commutes` belong to the trait's model and are never run.
#[derive(Clone, Copy, Debug, PartialEq)]
struct Real(f64);

impl Scalar for Real {
    fn spec_from_i8(k: i8) -> Self {
        Real(f64::from(k))
    }

    fn spec_plus(self, rhs: Self) -> Self {
        Real(self.0 + rhs.0)
    }

    fn spec_times(self, rhs: Self) -> Self {
        Real(self.0 * rhs.0)
    }

    fn spec_below_zero(self) -> bool {
        self.0 < 0.0
    }

    fn from_i8(k: i8) -> Self {
        Real(f64::from(k))
    }

    fn plus(self, rhs: Self) -> Self {
        Real(self.0 + rhs.0)
    }

    fn times(self, rhs: Self) -> Self {
        Real(self.0 * rhs.0)
    }

    fn below_zero(self) -> bool {
        self.0 < 0.0
    }

    fn times_commutes(_a: Self, _b: Self) {}
}

fn reals(numbers: &[f64]) -> Vec<Real> {
    numbers.iter().map(|x| Real(*x)).collect()
}

fn sample(features: &[f64], label: &str) -> Sample<Real> {
    Sample::new(reals(features), label)
}

#[test]
fn test_dot() {
    let vec1 = reals(&[0.1, 3.1, 4.1]);
    let vec2 = reals(&[-1.2, 4.0, 2.3]);
    assert!(approx::Relative::default().eq(&vec1.dot(&vec2).0, &21.71));
}

#[test]
fn dot_commutes_on_reals() {
    let vec1 = reals(&[0.1, 3.1, 4.1]);
    let vec2 = reals(&[-1.2, 4.0, 2.3]);
    assert_eq!(vec1.dot(&vec2), vec2.dot(&vec1));
}

#[test]
fn separable_samples_are_learned_with_reals() {
    let samples = vec![sample(&[0.0, 0.0], "a"), sample(&[1.0, 1.0], "b")];
    let mut p = Perceptron::new(Real(1.0));
    p.train(samples, 10, false).unwrap();
    assert_eq!(p.get_weights().unwrap(), reals(&[1.0, 1.0]));
    assert_eq!(p.get_bias().unwrap(), Real(-1.0));
    assert_eq!(p.predict(&sample(&[0.0, 0.0], "")).unwrap(), "a");
    assert_eq!(p.predict(&sample(&[1.0, 1.0], "")).unwrap(), "b");
}

#[test]
fn fractional_learning_rate() {
    let samples = vec![sample(&[0.5, 2.0], "low"), sample(&[4.0, 0.25], "high")];
    let mut p = Perceptron::new(Real(0.5));
    // [0.5, 2.0] low: z = 2.5, predicted 1, factor -0.5: weights [0.75, 0.0], bias -0.5
    // [4.0, 0.25] high: z = 2.5, predicted 1, right
    p.train(samples, 1, false).unwrap();
    assert_eq!(p.get_weights().unwrap(), reals(&[0.75, 0.0]));
    assert_eq!(p.get_bias().unwrap(), Real(-0.5));
    assert_eq!(p.get_learning_rate(), Real(0.5));
}

#[test]
fn activation_that_is_not_a_number_gives_the_second_class() {
    let samples = vec![sample(&[0.0], "a"), sample(&[1.0], "b")];
    let mut p = Perceptron::new(Real(1.0));
    p.train(samples, 0, false).unwrap();
    p.set_bias(Real(f64::NAN)).unwrap();
    assert_eq!(p.predict_num(&sample(&[1.0], "")).unwrap(), 1);
}
