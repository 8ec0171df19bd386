use strategies::utils::{InvalidConfiguration, RandomBoolean, RandomMove, THIRD, WHOLE};
use strategies::Move;

const TRIALS: usize = 100_000;

/// The number of parts that the given probability has, rounded up.
fn parts(probability: f64) -> i32 {
    (probability * f64::from(WHOLE)).ceil() as i32
}

#[test]
fn whole_is_two_to_the_power_of_23() {
    assert_eq!(WHOLE, 1 << 23);
    assert_eq!(THIRD, (WHOLE + 2) / 3);
    assert_eq!(3 * THIRD - 1, WHOLE);
}

#[test]
fn coin_accepts_every_probability_from_zero_to_the_whole() {
    for probability in [0, 1, WHOLE / 2, THIRD, WHOLE - 1, WHOLE] {
        assert!(RandomBoolean::new(probability).is_ok());
    }
}

#[test]
fn coin_rejects_a_negative_probability() {
    assert_eq!(parts(-0.1), -838_860);
    assert_eq!(RandomBoolean::new(parts(-0.1)).err(), Some(InvalidConfiguration::Probability));
    assert_eq!(RandomBoolean::new(-1).err(), Some(InvalidConfiguration::Probability));
    assert_eq!(RandomBoolean::new(i32::MIN).err(), Some(InvalidConfiguration::Probability));
}

#[test]
fn coin_rejects_a_probability_above_the_whole() {
    assert_eq!(parts(1.1), 9_227_469);
    assert_eq!(RandomBoolean::new(parts(1.1)).err(), Some(InvalidConfiguration::Probability));
    assert_eq!(RandomBoolean::new(WHOLE + 1).err(), Some(InvalidConfiguration::Probability));
    assert_eq!(RandomBoolean::new(i32::MAX).err(), Some(InvalidConfiguration::Probability));
}

#[test]
fn coin_of_probability_zero_never_shows_true() {
    let mut coin = RandomBoolean::new(0).unwrap();
    for _ in 0..TRIALS {
        assert!(!coin.get());
    }
}

#[test]
fn coin_of_probability_one_always_shows_true() {
    let mut coin = RandomBoolean::new(WHOLE).unwrap();
    for _ in 0..TRIALS {
        assert!(coin.get());
    }
}

#[test]
fn coin_shows_true_on_the_draws_below_its_probability() {
    let coin = RandomBoolean::new(WHOLE / 2).unwrap();
    assert!(coin.outcome_for(0));
    assert!(coin.outcome_for(WHOLE / 2 - 1));
    assert!(!coin.outcome_for(WHOLE / 2));
    assert!(!coin.outcome_for(WHOLE - 1));
    let never = RandomBoolean::new(0).unwrap();
    assert!(!never.outcome_for(0));
    let always = RandomBoolean::new(WHOLE).unwrap();
    assert!(always.outcome_for(WHOLE - 1));
}

#[test]
fn coin_shows_true_about_as_often_as_its_probability_says() {
    let mut coin = RandomBoolean::new(WHOLE / 4).unwrap();
    let mut shown = 0usize;
    for _ in 0..TRIALS {
        if coin.get() {
            shown += 1;
        }
    }
    let frequency = shown as f64 / TRIALS as f64;
    assert!((frequency - 0.25).abs() < 0.01, "frequency of true: {}", frequency);
}

#[test]
fn sampler_accepts_weights_that_sum_to_at_most_the_whole() {
    assert!(RandomMove::new(0, 0).is_ok());
    assert!(RandomMove::new(WHOLE, 0).is_ok());
    assert!(RandomMove::new(0, WHOLE).is_ok());
    assert!(RandomMove::new(WHOLE / 2, WHOLE / 2).is_ok());
    assert!(RandomMove::new(THIRD, THIRD).is_ok());
    assert!(RandomMove::new(1, WHOLE - 1).is_ok());
}

#[test]
fn sampler_rejects_a_weight_of_x_out_of_range() {
    assert_eq!(RandomMove::new(WHOLE + 1, 0).err(), Some(InvalidConfiguration::ProbabilityOfX));
    assert_eq!(RandomMove::new(-1, 0).err(), Some(InvalidConfiguration::ProbabilityOfX));
    assert_eq!(
        RandomMove::new(WHOLE + 1, WHOLE + 1).err(),
        Some(InvalidConfiguration::ProbabilityOfX)
    );
    assert_eq!(RandomMove::new(-1, -1).err(), Some(InvalidConfiguration::ProbabilityOfX));
}

#[test]
fn sampler_rejects_a_weight_of_y_out_of_range() {
    assert_eq!(RandomMove::new(0, WHOLE + 1).err(), Some(InvalidConfiguration::ProbabilityOfY));
    assert_eq!(RandomMove::new(0, -1).err(), Some(InvalidConfiguration::ProbabilityOfY));
    assert_eq!(RandomMove::new(WHOLE, -1).err(), Some(InvalidConfiguration::ProbabilityOfY));
    assert_eq!(
        RandomMove::new(WHOLE, i32::MAX).err(),
        Some(InvalidConfiguration::ProbabilityOfY)
    );
}

#[test]
fn sampler_rejects_weights_that_sum_to_more_than_the_whole() {
    assert_eq!(parts(0.6), 5_033_165);
    assert_eq!(
        RandomMove::new(parts(0.6), parts(0.6)).err(),
        Some(InvalidConfiguration::CombinedProbability)
    );
    assert_eq!(
        RandomMove::new(WHOLE, 1).err(),
        Some(InvalidConfiguration::CombinedProbability)
    );
    assert_eq!(
        RandomMove::new(WHOLE / 2, WHOLE / 2 + 1).err(),
        Some(InvalidConfiguration::CombinedProbability)
    );
    assert_eq!(
        RandomMove::new(WHOLE, WHOLE).err(),
        Some(InvalidConfiguration::CombinedProbability)
    );
}

#[test]
fn sampler_without_weights_always_gives_z() {
    let mut sampler = RandomMove::new(0, 0).unwrap();
    for _ in 0..TRIALS {
        assert_eq!(sampler.get(), Move::Z);
    }
}

#[test]
fn sampler_with_the_whole_weight_on_x_always_gives_x() {
    let mut sampler = RandomMove::new(WHOLE, 0).unwrap();
    for _ in 0..TRIALS {
        assert_eq!(sampler.get(), Move::X);
    }
}

#[test]
fn sampler_with_the_whole_weight_on_y_always_gives_y() {
    let mut sampler = RandomMove::new(0, WHOLE).unwrap();
    for _ in 0..TRIALS {
        assert_eq!(sampler.get(), Move::Y);
    }
}

#[test]
fn sampler_never_gives_a_move_of_weight_zero() {
    let mut sampler = RandomMove::new(WHOLE / 2, WHOLE / 2).unwrap();
    for _ in 0..TRIALS {
        assert_ne!(sampler.get(), Move::Z);
    }
    let mut sampler = RandomMove::new(0, WHOLE / 2).unwrap();
    for _ in 0..TRIALS {
        assert_ne!(sampler.get(), Move::X);
    }
}

#[test]
fn draws_are_split_at_the_cumulative_weights() {
    let sampler = RandomMove::new(WHOLE / 4, WHOLE / 2).unwrap();
    assert_eq!(sampler.outcome_for(0), Move::X);
    assert_eq!(sampler.outcome_for(WHOLE / 4 - 1), Move::X);
    assert_eq!(sampler.outcome_for(WHOLE / 4), Move::Y);
    assert_eq!(sampler.outcome_for(3 * (WHOLE / 4) - 1), Move::Y);
    assert_eq!(sampler.outcome_for(3 * (WHOLE / 4)), Move::Z);
    assert_eq!(sampler.outcome_for(WHOLE - 1), Move::Z);
}

#[test]
fn default_sampler_has_a_third_for_each_move() {
    let sampler = RandomMove::default();
    assert_eq!(sampler.outcome_for(0), Move::X);
    assert_eq!(sampler.outcome_for(THIRD - 1), Move::X);
    assert_eq!(sampler.outcome_for(THIRD), Move::Y);
    assert_eq!(sampler.outcome_for(2 * THIRD - 1), Move::Y);
    assert_eq!(sampler.outcome_for(2 * THIRD), Move::Z);
    assert_eq!(sampler.outcome_for(WHOLE - 1), Move::Z);
}

#[test]
fn default_sampler_gives_each_move_about_a_third_of_the_time() {
    let mut sampler = RandomMove::default();
    let mut counts = [0usize; 3];
    for _ in 0..TRIALS {
        match sampler.get() {
            Move::X => counts[0] += 1,
            Move::Y => counts[1] += 1,
            Move::Z => counts[2] += 1,
        }
    }
    for count in counts {
        let frequency = count as f64 / TRIALS as f64;
        assert!((frequency - 1.0 / 3.0).abs() < 0.01, "frequency of a move: {}", frequency);
    }
}

#[test]
fn two_samplers_have_generators_of_their_own() {
    let mut first = RandomMove::default();
    let mut second = RandomMove::default();
    let a: Vec<Move> = (0..64).map(|_| first.get()).collect();
    let b: Vec<Move> = (0..64).map(|_| second.get()).collect();
    assert_ne!(a, b);
}

#[test]
fn each_error_says_what_is_wrong() {
    assert_eq!(InvalidConfiguration::Probability.message(), "Probability must be between 0 and 1");
    assert_eq!(
        InvalidConfiguration::ProbabilityOfX.message(),
        "Probability of X must be between 0 and 1"
    );
    assert_eq!(
        InvalidConfiguration::ProbabilityOfY.message(),
        "Probability of Y must be between 0 and 1"
    );
    assert_eq!(
        InvalidConfiguration::CombinedProbability.message(),
        "Combined probability of X and Y cannot exceed 1"
    );
}
