use perceptron_rs::{Asked, Perceptron, PerceptronError, Sample};

fn sample(features: Vec<i64>, label: &str) -> Sample<i64> {
    Sample::new(features, label)
}

fn separable() -> Vec<Sample<i64>> {
    vec![sample(vec![0, 0], "a"), sample(vec![1, 1], "b")]
}

#[test]
fn new_perceptron_is_untrained() {
    let p: Perceptron<i64> = Perceptron::new(3);
    assert_eq!(p.get_learning_rate(), 3);
    assert!(matches!(p.get_weights(), Err(PerceptronError::NotTrained(Asked::Weights))));
    assert!(matches!(p.get_bias(), Err(PerceptronError::NotTrained(Asked::Bias))));
}

#[test]
fn learning_rate_can_be_set_at_any_time() {
    let mut p: Perceptron<i64> = Perceptron::new(3);
    p.set_learning_rate(5);
    assert_eq!(p.get_learning_rate(), 5);
    // [0, 0] a: z = 0, predicted 1, factor -5: weights [1, 1], bias -5
    // [1, 1] b: z = -3, predicted 0, factor 5: weights [6, 6], bias 0
    p.train(separable(), 1, false).unwrap();
    assert_eq!(p.get_weights().unwrap(), vec![6, 6]);
    assert_eq!(p.get_bias().unwrap(), 0);
    p.set_learning_rate(-2);
    assert_eq!(p.get_learning_rate(), -2);
    assert_eq!(p.get_weights().unwrap(), vec![6, 6]);
}

#[test]
fn training_without_epochs_initializes() {
    let mut p: Perceptron<i64> = Perceptron::new(1);
    let samples = vec![sample(vec![7, 8, 9], "a"), sample(vec![1, 2, 3], "b")];
    p.train(samples, 0, false).unwrap();
    assert_eq!(p.get_weights().unwrap(), vec![1, 1, 1]);
    assert_eq!(p.get_bias().unwrap(), 0);
}

#[test]
fn one_epoch_applies_the_update_rule_sample_by_sample() {
    let mut p: Perceptron<i64> = Perceptron::new(1);
    p.train(separable(), 1, false).unwrap();
    assert_eq!(p.get_weights().unwrap(), vec![1, 1]);
    assert_eq!(p.get_bias().unwrap(), -1);
}

#[test]
fn separable_samples_are_learned() {
    let mut p: Perceptron<i64> = Perceptron::new(1);
    p.train(separable(), 10, false).unwrap();
    assert_eq!(p.get_weights().unwrap(), vec![1, 1]);
    assert_eq!(p.get_bias().unwrap(), -1);
    assert_eq!(p.predict(&sample(vec![0, 0], "")).unwrap(), "a");
    assert_eq!(p.predict(&sample(vec![1, 1], "")).unwrap(), "b");
}

#[test]
fn training_twice_from_the_same_state_gives_the_same_parameters() {
    let samples = vec![
        sample(vec![2, -3], "n"),
        sample(vec![-1, 4], "p"),
        sample(vec![3, 1], "n"),
        sample(vec![0, 5], "p"),
    ];
    let mut p: Perceptron<i64> = Perceptron::new(2);
    let mut q: Perceptron<i64> = Perceptron::new(2);
    p.train(samples.clone(), 7, false).unwrap();
    q.train(samples.clone(), 7, false).unwrap();
    assert_eq!(p.get_weights().unwrap(), q.get_weights().unwrap());
    assert_eq!(p.get_bias().unwrap(), q.get_bias().unwrap());
    p.train(samples.clone(), 3, false).unwrap();
    q.train(samples, 3, false).unwrap();
    assert_eq!(p.get_weights().unwrap(), q.get_weights().unwrap());
    assert_eq!(p.get_bias().unwrap(), q.get_bias().unwrap());
}

#[test]
fn epochs_add_up_when_training_goes_on() {
    let samples = vec![
        sample(vec![2, -3], "n"),
        sample(vec![-1, 4], "p"),
        sample(vec![3, 1], "n"),
        sample(vec![0, 5], "p"),
    ];
    let mut whole: Perceptron<i64> = Perceptron::new(2);
    let mut parts: Perceptron<i64> = Perceptron::new(2);
    whole.train(samples.clone(), 5, false).unwrap();
    parts.train(samples.clone(), 2, false).unwrap();
    parts.train(samples, 3, false).unwrap();
    assert_eq!(whole.get_weights().unwrap(), parts.get_weights().unwrap());
    assert_eq!(whole.get_bias().unwrap(), parts.get_bias().unwrap());
}

#[test]
fn exact_parameters_after_two_epochs() {
    // weights [1, 1], bias 0, rate 2; "n" has code 0 and "p" code 1
    // epoch 1: [2, -3] n: z = -1, predicted 0, right
    //          [-1, 4] p: z = 3, predicted 1, right
    //          [3, 1] n: z = 4, predicted 1, factor -2: weights [-5, -1], bias -2
    //          [0, 5] p: z = -7, predicted 0, factor 2: weights [-5, 9], bias 0
    // epoch 2: [2, -3] n: z = -37, right; [-1, 4] p: z = 41, right
    //          [3, 1] n: z = -6, right; [0, 5] p: z = 45, right
    let samples = vec![
        sample(vec![2, -3], "n"),
        sample(vec![-1, 4], "p"),
        sample(vec![3, 1], "n"),
        sample(vec![0, 5], "p"),
    ];
    let mut p: Perceptron<i64> = Perceptron::new(2);
    p.train(samples.clone(), 1, false).unwrap();
    assert_eq!(p.get_weights().unwrap(), vec![-5, 9]);
    assert_eq!(p.get_bias().unwrap(), 0);
    p.train(samples, 1, false).unwrap();
    assert_eq!(p.get_weights().unwrap(), vec![-5, 9]);
    assert_eq!(p.get_bias().unwrap(), 0);
}

#[test]
fn reinitializing_discards_what_was_learned() {
    let mut p: Perceptron<i64> = Perceptron::new(1);
    p.train(separable(), 10, false).unwrap();
    assert_eq!(p.get_weights().unwrap(), vec![1, 1]);
    assert_eq!(p.get_bias().unwrap(), -1);

    let others = vec![sample(vec![2, 0, 0], "x"), sample(vec![0, 1, 0], "y")];
    p.train(others.clone(), 0, true).unwrap();
    assert_eq!(p.get_weights().unwrap(), vec![1, 1, 1]);
    assert_eq!(p.get_bias().unwrap(), 0);
    assert_eq!(p.predict(&sample(vec![0, 0, 0], "")).unwrap(), "y");

    p.train(separable(), 10, true).unwrap();
    p.train(others.clone(), 1, true).unwrap();
    assert_eq!(p.get_weights().unwrap(), vec![-1, 1, 1]);
    assert_eq!(p.get_bias().unwrap(), -1);

    let mut fresh: Perceptron<i64> = Perceptron::new(1);
    fresh.train(others, 1, false).unwrap();
    assert_eq!(p.get_weights().unwrap(), fresh.get_weights().unwrap());
    assert_eq!(p.get_bias().unwrap(), fresh.get_bias().unwrap());
}

#[test]
fn without_reinitializing_training_goes_on_from_the_parameters() {
    let mut p: Perceptron<i64> = Perceptron::new(1);
    p.train(separable(), 0, false).unwrap();
    p.set_weights(vec![10, 10]).unwrap();
    p.set_bias(5).unwrap();
    // [0, 0] a: z = 5, predicted 1, factor -1: weights [10, 10], bias 4
    // [1, 1] b: z = 24, predicted 1, right
    p.train(separable(), 1, false).unwrap();
    assert_eq!(p.get_weights().unwrap(), vec![10, 10]);
    assert_eq!(p.get_bias().unwrap(), 4);
}

#[test]
fn weight_change_factor_is_rate_times_code_difference() {
    let mut p: Perceptron<i64> = Perceptron::new(3);
    p.train(separable(), 0, false).unwrap();
    // predicted 1, actual 0
    assert_eq!(p.calculate_wcf(&sample(vec![2, 5], "a")).unwrap(), -3);
    // predicted 1, actual 1
    assert_eq!(p.calculate_wcf(&sample(vec![2, 5], "b")).unwrap(), 0);
    p.set_bias(-100).unwrap();
    // predicted 0, actual 1
    assert_eq!(p.calculate_wcf(&sample(vec![2, 5], "b")).unwrap(), 3);
    // predicted 0, actual 0
    assert_eq!(p.calculate_wcf(&sample(vec![2, 5], "a")).unwrap(), 0);
}

#[test]
fn update_adds_factor_times_feature_to_each_weight() {
    let mut p: Perceptron<i64> = Perceptron::new(3);
    p.train(separable(), 0, false).unwrap();
    p.update_params(&sample(vec![2, 5], "a")).unwrap();
    assert_eq!(p.get_weights().unwrap(), vec![-5, -14]);
    assert_eq!(p.get_bias().unwrap(), -3);
    p.set_weights(vec![1, 1]).unwrap();
    p.set_bias(-100).unwrap();
    p.update_params(&sample(vec![1, 1], "b")).unwrap();
    assert_eq!(p.get_weights().unwrap(), vec![4, 4]);
    assert_eq!(p.get_bias().unwrap(), -97);
    p.update_params(&sample(vec![1, 1], "a")).unwrap();
    assert_eq!(p.get_weights().unwrap(), vec![4, 4]);
    assert_eq!(p.get_bias().unwrap(), -97);
}

#[test]
fn update_reaches_only_the_weights_that_have_a_feature() {
    let mut p: Perceptron<i64> = Perceptron::new(1);
    p.train(separable(), 0, false).unwrap();
    p.set_weights(vec![1, 1, 1]).unwrap();
    // z = 4, predicted 1, actual 0, factor -1
    p.update_params(&sample(vec![4], "a")).unwrap();
    assert_eq!(p.get_weights().unwrap(), vec![-3, 1, 1]);
    assert_eq!(p.get_bias().unwrap(), -1);
    // z = -6 + 1 - 1 = -6, predicted 0, actual 1, factor 1
    p.update_params(&sample(vec![2, 1, 0, 7], "b")).unwrap();
    assert_eq!(p.get_weights().unwrap(), vec![-1, 2, 1]);
    assert_eq!(p.get_bias().unwrap(), 0);
}

#[test]
fn untrained_perceptron_cannot_update() {
    let mut p: Perceptron<i64> = Perceptron::new(1);
    assert!(matches!(
        p.update_params(&sample(vec![1], "a")),
        Err(PerceptronError::NotTrained(Asked::Prediction))
    ));
    assert!(matches!(
        p.calculate_wcf(&sample(vec![1], "a")),
        Err(PerceptronError::NotTrained(Asked::Prediction))
    ));
    assert!(matches!(
        p.train_for_one_epoch(&separable()),
        Err(PerceptronError::NotTrained(Asked::Prediction))
    ));
    assert!(p.train_for_one_epoch(&[]).is_ok());
    assert!(p.get_weights().is_err());
}

#[test]
fn one_epoch_on_its_own() {
    let mut p: Perceptron<i64> = Perceptron::new(1);
    p.train(separable(), 0, false).unwrap();
    p.train_for_one_epoch(&separable()).unwrap();
    assert_eq!(p.get_weights().unwrap(), vec![1, 1]);
    assert_eq!(p.get_bias().unwrap(), -1);
}

#[test]
fn parameters_can_be_set_once_trained() {
    let mut p: Perceptron<i64> = Perceptron::new(1);
    assert!(matches!(
        p.set_weights(vec![1, 2]),
        Err(PerceptronError::NotTrained(Asked::Weights))
    ));
    assert!(matches!(p.set_bias(4), Err(PerceptronError::NotTrained(Asked::Bias))));
    assert!(p.get_weights().is_err());
    assert!(p.get_bias().is_err());
    p.train(separable(), 1, false).unwrap();
    p.set_weights(vec![8, 9]).unwrap();
    assert_eq!(p.get_weights().unwrap(), vec![8, 9]);
    assert_eq!(p.get_bias().unwrap(), -1);
    p.set_bias(4).unwrap();
    assert_eq!(p.get_weights().unwrap(), vec![8, 9]);
    assert_eq!(p.get_bias().unwrap(), 4);
}

#[test]
fn known_and_unknown_labels() {
    let mut p: Perceptron<i64> = Perceptron::new(1);
    assert!(p.recognizes(&separable()));
    p.train(separable(), 1, false).unwrap();
    assert!(p.recognizes(&separable()));
    assert!(p.recognizes(&[]));
    assert!(!p.recognizes(&[sample(vec![1, 1], "a"), sample(vec![1, 1], "c")]));
}

#[test]
fn not_trained_messages() {
    assert_eq!(Asked::Prediction.message(), ".train() must be called before predicting");
    assert_eq!(
        Asked::Weights.message(),
        ".train() must be called before 'weights' can be accessed"
    );
    assert_eq!(Asked::Bias.message(), ".train() must be called before 'bias' can be accessed");
}
