use perceptron_rs::{Asked, Perceptron, PerceptronError, Sample};

fn sample(features: Vec<i64>, label: &str) -> Sample<i64> {
    Sample::new(features, label)
}

fn trained() -> Perceptron<i64> {
    let mut p: Perceptron<i64> = Perceptron::new(1);
    p.train(vec![sample(vec![0, 0], "a"), sample(vec![1, 1], "b")], 10, false).unwrap();
    p
}

#[test]
fn untrained_perceptron_cannot_predict() {
    let p: Perceptron<i64> = Perceptron::new(1);
    let asked = p.predict(&sample(vec![0, 0], "a"));
    assert!(matches!(asked, Err(PerceptronError::NotTrained(Asked::Prediction))));
    assert!(!matches!(asked, Err(PerceptronError::Configuration(_))));
    assert!(matches!(
        p.predict_num(&sample(vec![0, 0], "a")),
        Err(PerceptronError::NotTrained(Asked::Prediction))
    ));
}

#[test]
fn activation_of_zero_gives_the_second_class() {
    let mut p = trained();
    p.set_weights(vec![0, 0]).unwrap();
    p.set_bias(0).unwrap();
    assert_eq!(p.predict_num(&sample(vec![5, 5], "")).unwrap(), 1);
    assert_eq!(p.predict(&sample(vec![5, 5], "")).unwrap(), "b");
    p.set_weights(vec![1, -1]).unwrap();
    assert_eq!(p.predict_num(&sample(vec![5, 5], "")).unwrap(), 1);
    p.set_bias(-1).unwrap();
    assert_eq!(p.predict_num(&sample(vec![5, 5], "")).unwrap(), 0);
    assert_eq!(p.predict(&sample(vec![5, 5], "")).unwrap(), "a");
}

#[test]
fn prediction_is_the_sign_of_the_weighted_sum_plus_bias() {
    let mut p = trained();
    p.set_weights(vec![2, -3]).unwrap();
    p.set_bias(4).unwrap();
    // 2 * 1 - 3 * 2 + 4 = 0
    assert_eq!(p.predict_num(&sample(vec![1, 2], "")).unwrap(), 1);
    // 2 * 1 - 3 * 3 + 4 = -3
    assert_eq!(p.predict_num(&sample(vec![1, 3], "")).unwrap(), 0);
    // 2 * 10 - 3 * 3 + 4 = 15
    assert_eq!(p.predict_num(&sample(vec![10, 3], "")).unwrap(), 1);
}

#[test]
fn prediction_changes_nothing() {
    let p = trained();
    let weights = p.get_weights().unwrap();
    let bias = p.get_bias().unwrap();
    let first = p.predict(&sample(vec![0, 0], "")).unwrap().clone();
    let second = p.predict(&sample(vec![0, 0], "")).unwrap().clone();
    assert_eq!(first, second);
    assert_eq!(p.predict(&sample(vec![1, 1], "")).unwrap(), "b");
    assert_eq!(p.predict(&sample(vec![0, 0], "")).unwrap(), "a");
    assert_eq!(p.get_weights().unwrap(), weights);
    assert_eq!(p.get_bias().unwrap(), bias);
    assert_eq!(p.get_learning_rate(), 1);
}

#[test]
fn prediction_does_not_read_the_label_of_the_sample() {
    let p = trained();
    assert_eq!(p.predict(&sample(vec![1, 1], "a")).unwrap(), "b");
    assert_eq!(p.predict(&sample(vec![1, 1], "zzz")).unwrap(), "b");
}

#[test]
fn prediction_on_a_sample_of_another_length() {
    let p = trained();
    // weights [1, 1], bias -1
    assert_eq!(p.predict_num(&sample(vec![], "")).unwrap(), 0);
    assert_eq!(p.predict_num(&sample(vec![1], "")).unwrap(), 1);
    assert_eq!(p.predict_num(&sample(vec![1, 0, -100], "")).unwrap(), 1);
}
