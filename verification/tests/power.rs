use vehicle_forces::power::{curve_point, lookup_power, CurvePoint};

/// Common logarithm of the number a place on the curve asks for, in
/// thousandths and rounded down, as a host with floating point would look
/// it up.
fn log_of(point: CurvePoint) -> i64 {
    match point {
        CurvePoint::Rising { numerator, denominator }
        | CurvePoint::Falling { numerator, denominator } => {
            ((numerator as f64 / denominator as f64).log10() * 1000.0).floor() as i64
        }
        _ => 0,
    }
}

fn power(speed: i64, max_speed: i64, max_force: i64) -> i64 {
    let point = curve_point(speed, max_speed);
    lookup_power(point, log_of(point), max_force)
}

#[test]
fn standing_still_is_on_the_rising_flank() {
    assert_eq!(
        curve_point(0, 50_000),
        CurvePoint::Rising { numerator: 150_000, denominator: 500_000 }
    );
    // -log10(0.3) = 0.5229
    assert_eq!(power(0, 50_000, 100_000), 52_300);
}

#[test]
fn plateau_starts_at_four_tenths() {
    assert_eq!(curve_point(20_000, 50_000), CurvePoint::Plateau);
    assert_eq!(power(20_000, 50_000, 100_000), 100_000);
    assert_eq!(
        curve_point(19_999, 50_000),
        CurvePoint::Rising { numerator: 50_005, denominator: 500_000 }
    );
}

#[test]
fn power_is_continuous_at_four_tenths() {
    let below = power(19_999, 50_000, 100_000);
    let at = power(20_000, 50_000, 100_000);
    let above = power(20_001, 50_000, 100_000);
    assert_eq!(at, 100_000);
    assert_eq!(above, 100_000);
    assert!((at - below).abs() <= 100);
}

#[test]
fn gap_below_the_plateau_shrinks_with_the_distance_to_it() {
    // Short of four tenths by eps, the force is short of the full force by
    // less than 2.18 eps of it, and a rounding step.
    for short in [1i64, 5, 50, 100, 500, 1_000, 5_000, 10_000, 19_999] {
        let speed = 20_000 - short;
        let gap = 100_000 - power(speed, 50_000, 100_000);
        // eps = short / 50_000; 2.18 * eps * 100_000 = 4.36 * short
        assert!(0 <= gap && gap * 100 <= 436 * short + 200, "gap {} at {}", gap, short);
    }
}

#[test]
fn plateau_ends_at_0_698() {
    assert_eq!(curve_point(34_900, 50_000), CurvePoint::Plateau);
    assert_eq!(
        curve_point(34_901, 50_000),
        CurvePoint::Falling { numerator: 125_495, denominator: 50_000 }
    );
    let at = power(34_900, 50_000, 100_000);
    let above = power(34_901, 50_000, 100_000);
    assert_eq!(at, 100_000);
    assert!((at - above).abs() <= 100);
}

#[test]
fn falling_flank_ends_at_six_tenths_of_full_force() {
    assert_eq!(
        curve_point(50_000, 50_000),
        CurvePoint::Falling { numerator: 50_000, denominator: 50_000 }
    );
    assert_eq!(power(50_000, 50_000, 100_000), 60_000);
    // log10(6 - 5 * 0.8) + 0.6 = 0.90103
    assert_eq!(power(40_000, 50_000, 100_000), 90_100);
}

#[test]
fn rising_flank_follows_the_logarithm() {
    // -log10(0.3 - 0.5 * 0.2) = 0.69897
    assert_eq!(power(10_000, 50_000, 100_000), 69_900);
    // -log10(0.3 - 0.5 * 0.3) = 0.82391
    assert_eq!(power(15_000, 50_000, 100_000), 82_400);
}

#[test]
fn above_top_speed_the_curve_stays_where_it_ends() {
    assert_eq!(curve_point(50_001, 50_000), CurvePoint::Above);
    // A ratio of 1.2: the value at a ratio of 1, (log10(1) + 0.6) of 100.
    assert_eq!(power(60_000, 50_000, 100_000), 60_000);
    assert_eq!(power(50_001, 50_000, 100_000), power(50_000, 50_000, 100_000));
    assert_eq!(power(2_000_000_000, 50_000, 100_000), 60_000);
    // Whatever is passed for the logarithm is not read there.
    assert_eq!(lookup_power(CurvePoint::Above, 400, 100_000), 60_000);
    assert_eq!(lookup_power(CurvePoint::Above, i64::MIN, 250_000), 150_000);
}

#[test]
fn no_top_speed_means_no_power() {
    assert_eq!(curve_point(0, 0), CurvePoint::Beyond);
    assert_eq!(curve_point(5_000, 0), CurvePoint::Beyond);
    assert_eq!(power(5_000, 0, 100_000), 0);
}

#[test]
fn negative_ratio_gives_half_the_force() {
    assert_eq!(curve_point(5_000, -50_000), CurvePoint::Reverse);
    assert_eq!(power(5_000, -50_000, 100_000), 50_000);
    assert_eq!(
        curve_point(0, -50_000),
        CurvePoint::Rising { numerator: 150_000, denominator: 500_000 }
    );
}

#[test]
fn power_stays_between_nothing_and_full_force() {
    let rising = CurvePoint::Rising { numerator: 1, denominator: 5 };
    let falling = CurvePoint::Falling { numerator: 2, denominator: 1 };
    assert_eq!(lookup_power(rising, 5_000, 100_000), 0);
    assert_eq!(lookup_power(rising, -5_000, 100_000), 100_000);
    assert_eq!(lookup_power(rising, i64::MIN, 100_000), 100_000);
    assert_eq!(lookup_power(rising, i64::MAX, 100_000), 0);
    assert_eq!(lookup_power(falling, 5_000, 100_000), 100_000);
    assert_eq!(lookup_power(falling, -5_000, 100_000), 0);
    assert_eq!(lookup_power(falling, i64::MAX, 100_000), 100_000);
    let mut speed = 0;
    while speed <= 60_000 {
        let p = power(speed, 50_000, 100_000);
        assert!(0 <= p && p <= 100_000);
        speed += 250;
    }
}

#[test]
fn power_scales_with_max_force() {
    assert_eq!(lookup_power(CurvePoint::Plateau, 0, 250_000), 250_000);
    assert_eq!(lookup_power(CurvePoint::Plateau, 0, 0), 0);
    assert_eq!(lookup_power(CurvePoint::Reverse, 0, 100_001), 50_000);
    assert_eq!(lookup_power(CurvePoint::Rising { numerator: 1, denominator: 5 }, -699, 1_000), 699);
}
