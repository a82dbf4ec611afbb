use fbas_qsc::threshold::{calculate_threshold, ThresholdPolicy};

#[test]
fn default_threshold_is_just_above_two_thirds() {
    let policy = ThresholdPolicy::Default67Percent;
    assert_eq!(calculate_threshold(1, &policy), 1);
    assert_eq!(calculate_threshold(2, &policy), 2);
    assert_eq!(calculate_threshold(3, &policy), 3);
    assert_eq!(calculate_threshold(4, &policy), 3);
    assert_eq!(calculate_threshold(6, &policy), 5);
    assert_eq!(calculate_threshold(10, &policy), 7);
    assert_eq!(calculate_threshold(100, &policy), 67);
}

#[test]
fn relative_threshold_rounds_up() {
    let half = ThresholdPolicy::Relative { numerator: 1, denominator: 2 };
    assert_eq!(calculate_threshold(10, &half), 5);
    assert_eq!(calculate_threshold(9, &half), 5);
    assert_eq!(calculate_threshold(1, &half), 1);

    let two_thirds = ThresholdPolicy::Relative { numerator: 2, denominator: 3 };
    assert_eq!(calculate_threshold(10, &two_thirds), 7);
    assert_eq!(calculate_threshold(3, &two_thirds), 2);

    let third = ThresholdPolicy::Relative { numerator: 1, denominator: 3 };
    assert_eq!(calculate_threshold(3, &third), 1);
    assert_eq!(calculate_threshold(4, &third), 2);
}

#[test]
fn unanimity_requires_every_validator() {
    let unanimity = ThresholdPolicy::Relative { numerator: 1, denominator: 1 };
    assert_eq!(calculate_threshold(1, &unanimity), 1);
    assert_eq!(calculate_threshold(10, &unanimity), 10);
}

#[test]
fn zero_validators_still_yield_a_positive_threshold() {
    assert_eq!(calculate_threshold(0, &ThresholdPolicy::Default67Percent), 1);
    assert_eq!(
        calculate_threshold(0, &ThresholdPolicy::Relative { numerator: 3, denominator: 4 }),
        1
    );
}

#[test]
fn huge_validator_counts_do_not_overflow() {
    let policy = ThresholdPolicy::Relative {
        numerator: usize::MAX - 1,
        denominator: usize::MAX,
    };
    let t = calculate_threshold(usize::MAX, &policy);
    assert!(1 <= t && t <= usize::MAX);
    assert_eq!(calculate_threshold(usize::MAX, &ThresholdPolicy::Default67Percent),
        usize::MAX / 3 * 2 + 1);
}
