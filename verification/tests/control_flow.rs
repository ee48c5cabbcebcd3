use rust_tour::control_flow::country;
use rust_tour::control_flow::double_times;
use rust_tour::control_flow::doubles_below;
use rust_tour::control_flow::doubles_until;
use rust_tour::control_flow::enumerate_range;
use rust_tour::control_flow::weather;
use rust_tour::control_flow::weather_in_detail;
use rust_tour::control_flow::DOUBLING_LIMIT;

#[test]
fn weather_below_freezing_is_cold() {
    assert_eq!(weather(-5), "cold");
    assert_eq!(weather_in_detail(-5), "super cold!");
}

#[test]
fn weather_changes_at_ten_and_above_thirty() {
    assert_eq!(weather(9), "cold");
    assert_eq!(weather(10), "nice");
    assert_eq!(weather(30), "nice");
    assert_eq!(weather(31), "hot");
    assert_eq!(weather(i32::MIN), "cold");
    assert_eq!(weather(i32::MAX), "hot");
}

#[test]
fn weather_in_detail_has_five_steps() {
    assert_eq!(weather_in_detail(-1), "super cold!");
    assert_eq!(weather_in_detail(0), "cold");
    assert_eq!(weather_in_detail(9), "cold");
    assert_eq!(weather_in_detail(10), "nice");
    assert_eq!(weather_in_detail(20), "nice");
    assert_eq!(weather_in_detail(21), "hot");
    assert_eq!(weather_in_detail(30), "hot");
    assert_eq!(weather_in_detail(31), "super hot!");
}

#[test]
fn the_two_weather_reports_disagree_between_twenty_and_thirty() {
    assert_eq!(weather(25), "nice");
    assert_eq!(weather_in_detail(25), "hot");
}

#[test]
fn doubles_below_a_thousand_skipping_sixty_four() {
    assert_eq!(doubles_below(1000, 64), vec![2, 4, 8, 16, 32, 128, 256, 512, 1024]);
}

#[test]
fn doubles_below_keeps_everything_when_the_skipped_number_is_never_met() {
    assert_eq!(doubles_below(1000, 3), vec![2, 4, 8, 16, 32, 64, 128, 256, 512, 1024]);
    assert_eq!(doubles_below(1000, 2048), vec![2, 4, 8, 16, 32, 64, 128, 256, 512, 1024]);
}

#[test]
fn doubles_below_can_skip_the_last_number() {
    assert_eq!(doubles_below(5, 8), vec![2, 4]);
}

#[test]
fn doubles_below_one_or_less_is_empty() {
    assert_eq!(doubles_below(1, 64), Vec::<i32>::new());
    assert_eq!(doubles_below(0, 64), Vec::<i32>::new());
    assert_eq!(doubles_below(-7, 64), Vec::<i32>::new());
}

#[test]
fn doubles_below_a_power_of_two_stops_at_it() {
    assert_eq!(doubles_below(2, 0), vec![2]);
    assert_eq!(doubles_below(8, 0), vec![2, 4, 8]);
    assert_eq!(doubles_below(9, 0), vec![2, 4, 8, 16]);
}

#[test]
fn doubles_below_the_limit_ends_with_the_limit() {
    let seen = doubles_below(DOUBLING_LIMIT, 0);
    assert_eq!(seen.len(), 30);
    assert_eq!(seen[0], 2);
    assert_eq!(seen[29], 1 << 30);
}

#[test]
fn doubles_until_two_to_the_tenth() {
    assert_eq!(doubles_until(1 << 10), vec![2, 4, 8, 16, 32, 64, 128, 256, 512, 1024]);
}

#[test]
fn doubles_until_two_is_one_step() {
    assert_eq!(doubles_until(2), vec![2]);
}

#[test]
fn doubles_until_the_largest_power_has_thirty_steps() {
    let seen = doubles_until(1 << 30);
    assert_eq!(seen.len(), 30);
    assert_eq!(seen[29], 1 << 30);
    for i in 0..30 {
        assert_eq!(seen[i], 1 << (i + 1));
    }
}

#[test]
fn double_times_ten_is_1024() {
    assert_eq!(double_times(10), 1024);
}

#[test]
fn double_times_at_its_ends() {
    assert_eq!(double_times(0), 1);
    assert_eq!(double_times(1), 2);
    assert_eq!(double_times(30), 1 << 30);
}

#[test]
fn enumerate_range_thirty_to_forty() {
    let pairs = enumerate_range(30, 40);
    let expected: Vec<(usize, i32)> = (30..40).enumerate().collect();
    assert_eq!(pairs, expected);
    assert_eq!(pairs[0], (0, 30));
    assert_eq!(pairs[9], (9, 39));
}

#[test]
fn enumerate_range_is_empty_unless_start_is_below_end() {
    assert_eq!(enumerate_range(5, 5), Vec::<(usize, i32)>::new());
    assert_eq!(enumerate_range(6, 5), Vec::<(usize, i32)>::new());
}

#[test]
fn enumerate_range_crosses_zero() {
    assert_eq!(enumerate_range(-2, 2), vec![(0, -2), (1, -1), (2, 0), (3, 1)]);
}

#[test]
fn enumerate_range_reaches_the_ends_of_the_integers() {
    assert_eq!(enumerate_range(i32::MAX - 1, i32::MAX), vec![(0, i32::MAX - 1)]);
    assert_eq!(enumerate_range(i32::MIN, i32::MIN + 2), vec![(0, i32::MIN), (1, i32::MIN + 1)]);
}

#[test]
fn country_knows_four_codes() {
    assert_eq!(country(44), "UK");
    assert_eq!(country(46), "Sweden");
    assert_eq!(country(7), "Russia");
    assert_eq!(country(1), "USA");
}

#[test]
fn country_666_is_unknown() {
    assert_eq!(country(666), "unknown");
}

#[test]
fn country_is_unknown_from_1_to_999_and_invalid_outside() {
    assert_eq!(country(2), "unknown");
    assert_eq!(country(999), "unknown");
    assert_eq!(country(1000), "invalid");
    assert_eq!(country(0), "invalid");
    assert_eq!(country(-44), "invalid");
}

#[test]
fn doubles_below_meets_the_powers_of_two_up_to_the_first_that_reaches_the_bound() {
    for bound in [1, 2, 3, 4, 5, 100, 1000, 1024, 1025, DOUBLING_LIMIT] {
        for skipped in [0, 2, 64, 1024] {
            let mut expected: Vec<i32> = Vec::new();
            let mut exponent = 0;
            while (1i64 << exponent) < i64::from(bound) {
                exponent += 1;
                if (1 << exponent) != skipped {
                    expected.push(1 << exponent);
                }
            }
            assert_eq!(doubles_below(bound, skipped), expected);
        }
    }
}
