use stat_dists::ConstructionError;
use stat_dists::DistParams;
use stat_dists::DistType;
use stat_dists::Fixed;
use stat_dists::NormalDist;
use stat_dists::NormalParams;
use stat_dists::PoissonDist;
use stat_dists::PoissonParams;
use stat_dists::UniformDist;
use stat_dists::UniformParams;
use stat_dists::create_distribution;

fn fx(h: i64) -> Fixed {
    Fixed::from_hundredths(h)
}

#[test]
fn normal_new_accepts_positive_std_dev() {
    let d = NormalDist::new(fx(0), fx(100)).unwrap();
    assert_eq!(d.mean(), fx(0));
    assert_eq!(d.std_dev(), fx(100));
}

#[test]
fn normal_new_rejects_zero_std_dev() {
    let r = NormalDist::new(fx(0), fx(0));
    assert_eq!(r.unwrap_err(), ConstructionError::InvalidParameter);
}

#[test]
fn normal_new_rejects_negative_std_dev() {
    let r = NormalDist::new(fx(250), fx(-100));
    assert_eq!(r.unwrap_err(), ConstructionError::InvalidParameter);
}

#[test]
fn poisson_new_accepts_positive_lambda() {
    let d = PoissonDist::new(fx(300)).unwrap();
    assert_eq!(d.lambda(), fx(300));
}

#[test]
fn poisson_new_rejects_zero_lambda() {
    let r = PoissonDist::new(fx(0));
    assert_eq!(r.unwrap_err(), ConstructionError::InvalidParameter);
}

#[test]
fn poisson_new_rejects_negative_lambda() {
    let r = PoissonDist::new(fx(-1));
    assert_eq!(r.unwrap_err(), ConstructionError::InvalidParameter);
}

#[test]
fn uniform_new_accepts_ordered_bounds() {
    let d = UniformDist::new(fx(0), fx(1000)).unwrap();
    assert_eq!(d.min(), fx(0));
    assert_eq!(d.max(), fx(1000));
}

#[test]
fn uniform_new_rejects_equal_bounds() {
    let r = UniformDist::new(fx(500), fx(500));
    assert_eq!(r.unwrap_err(), ConstructionError::InvalidParameter);
}

#[test]
fn uniform_new_rejects_reversed_bounds() {
    let r = UniformDist::new(fx(1000), fx(0));
    assert_eq!(r.unwrap_err(), ConstructionError::InvalidParameter);
}

#[test]
fn create_normal_builds_the_variant() {
    let d = create_distribution("normal", &[fx(0), fx(100)]).unwrap();
    match d {
        DistType::Normal(n) => {
            assert_eq!(n.mean(), fx(0));
            assert_eq!(n.std_dev(), fx(100));
        }
        _ => panic!("expected a normal distribution"),
    }
}

#[test]
fn create_poisson_builds_the_variant() {
    let d = create_distribution("poisson", &[fx(300)]).unwrap();
    match d {
        DistType::Poisson(p) => assert_eq!(p.lambda(), fx(300)),
        _ => panic!("expected a Poisson distribution"),
    }
}

#[test]
fn create_uniform_builds_the_variant() {
    let d = create_distribution("uniform", &[fx(0), fx(1000)]).unwrap();
    match d {
        DistType::Uniform(u) => {
            assert_eq!(u.min(), fx(0));
            assert_eq!(u.max(), fx(1000));
        }
        _ => panic!("expected a uniform distribution"),
    }
}

#[test]
fn create_normal_with_one_parameter_reports_the_arity() {
    let r = create_distribution("normal", &[fx(0)]);
    assert_eq!(
        r.unwrap_err(),
        ConstructionError::WrongParameterCount { expected: 2, got: 1 }
    );
}

#[test]
fn create_poisson_with_two_parameters_reports_the_arity() {
    let r = create_distribution("poisson", &[fx(100), fx(200)]);
    assert_eq!(
        r.unwrap_err(),
        ConstructionError::WrongParameterCount { expected: 1, got: 2 }
    );
}

#[test]
fn create_uniform_with_no_parameters_reports_the_arity() {
    let r = create_distribution("uniform", &[]);
    assert_eq!(
        r.unwrap_err(),
        ConstructionError::WrongParameterCount { expected: 2, got: 0 }
    );
}

#[test]
fn create_arity_check_comes_before_value_validation() {
    // Three parameters for normal: rejected for the count even though
    // the first two would be invalid values as well.
    let r = create_distribution("normal", &[fx(0), fx(-100), fx(7)]);
    assert_eq!(
        r.unwrap_err(),
        ConstructionError::WrongParameterCount { expected: 2, got: 3 }
    );
}

#[test]
fn create_propagates_invalid_parameter() {
    let r = create_distribution("uniform", &[fx(1000), fx(0)]);
    assert_eq!(r.unwrap_err(), ConstructionError::InvalidParameter);
}

#[test]
fn create_unknown_name_is_rejected() {
    let r = create_distribution("bogus", &[]);
    assert_eq!(r.unwrap_err(), ConstructionError::UnknownDistributionType);
}

#[test]
fn create_name_match_is_case_sensitive() {
    let r = create_distribution("Normal", &[fx(0), fx(100)]);
    assert_eq!(r.unwrap_err(), ConstructionError::UnknownDistributionType);
}

#[test]
fn format_normal_standard() {
    let d = NormalDist::new(fx(0), fx(100)).unwrap();
    assert_eq!(d.format(), "Normal(μ=0.00, σ=1.00)");
}

#[test]
fn format_poisson_three() {
    let d = PoissonDist::new(fx(300)).unwrap();
    assert_eq!(d.format(), "Poisson(λ=3.00)");
}

#[test]
fn format_uniform_zero_to_ten() {
    let d = UniformDist::new(fx(0), fx(1000)).unwrap();
    assert_eq!(d.format(), "Uniform(min=0.00, max=10.00)");
}

#[test]
fn format_dispatches_over_the_variant() {
    let d = create_distribution("poisson", &[fx(125)]).unwrap();
    assert_eq!(d.format(), "Poisson(λ=1.25)");
}

#[test]
fn fixed_format_renders_two_places() {
    assert_eq!(fx(0).format(), "0.00");
    assert_eq!(fx(7).format(), "0.07");
    assert_eq!(fx(70).format(), "0.70");
    assert_eq!(fx(12345).format(), "123.45");
    assert_eq!(fx(-50).format(), "-0.50");
    assert_eq!(fx(-12300).format(), "-123.00");
    assert_eq!(fx(i64::MAX).format(), "92233720368547758.07");
    assert_eq!(fx(i64::MIN).format(), "-92233720368547758.08");
}

#[test]
fn construction_error_messages() {
    assert_eq!(
        ConstructionError::UnknownDistributionType.message(),
        "unknown distribution type"
    );
    assert_eq!(
        ConstructionError::WrongParameterCount { expected: 2, got: 1 }.message(),
        "wrong parameter count: expected 2, got 1"
    );
    assert_eq!(
        ConstructionError::InvalidParameter.message(),
        "invalid parameter"
    );
}

#[test]
fn uniform_record_round_trip_preserves_the_distribution() {
    let d = UniformDist::new(fx(0), fx(1000)).unwrap();
    let rec = d.serialize();
    assert_eq!(rec, UniformParams { min: fx(0), max: fx(1000) });
    let back = UniformDist::deserialize(rec).unwrap();
    assert_eq!(back, d);
    assert_eq!(back.format(), d.format());
}

#[test]
fn normal_record_round_trip_preserves_the_distribution() {
    let d = NormalDist::new(fx(150), fx(25)).unwrap();
    let back = NormalDist::deserialize(d.serialize()).unwrap();
    assert_eq!(back, d);
}

#[test]
fn poisson_record_round_trip_preserves_the_distribution() {
    let d = PoissonDist::new(fx(300)).unwrap();
    let back = PoissonDist::deserialize(d.serialize()).unwrap();
    assert_eq!(back, d);
}

#[test]
fn dist_record_round_trip_preserves_the_distribution() {
    let d = create_distribution("uniform", &[fx(0), fx(1000)]).unwrap();
    let rec = d.serialize();
    let back = DistType::deserialize(rec).unwrap();
    assert_eq!(back, d);
}

#[test]
fn deserialize_revalidates_uniform_bounds() {
    let rec = UniformParams { min: fx(1000), max: fx(0) };
    let direct = UniformDist::new(fx(1000), fx(0));
    assert_eq!(UniformDist::deserialize(rec), direct);
    assert_eq!(
        UniformDist::deserialize(rec).unwrap_err(),
        ConstructionError::InvalidParameter
    );
}

#[test]
fn deserialize_revalidates_normal_std_dev() {
    let rec = NormalParams { mean: fx(0), std_dev: fx(-100) };
    assert_eq!(
        NormalDist::deserialize(rec).unwrap_err(),
        ConstructionError::InvalidParameter
    );
}

#[test]
fn deserialize_revalidates_poisson_lambda() {
    let rec = DistParams::Poisson(PoissonParams { lambda: fx(0) });
    assert_eq!(
        DistType::deserialize(rec).unwrap_err(),
        ConstructionError::InvalidParameter
    );
}
