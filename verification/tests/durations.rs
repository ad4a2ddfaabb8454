use chrono::TimeDelta;
use water_my_garden_rs::sections::{DurationError, Section, SectionDuration};

fn from_delta(delta: TimeDelta) -> Result<SectionDuration, DurationError> {
    SectionDuration::new(delta.num_seconds(), delta.subsec_nanos())
}

#[test]
fn zero_is_a_duration() {
    let zero = SectionDuration::new(0, 0).unwrap();
    assert!(zero.is_zero());
    assert_eq!(zero, SectionDuration::default());
    assert_eq!(zero.into_inner(), (0, 0));
}

#[test]
fn one_nanosecond_is_not_zero() {
    let tiny = SectionDuration::new(0, 1).unwrap();
    assert!(!tiny.is_zero());
    assert_eq!(tiny.into_inner(), (0, 1));
    assert_eq!(tiny.num_seconds(), 0);
}

#[test]
fn negative_spans_are_refused() {
    assert_eq!(SectionDuration::new(-1, 0), Err(DurationError::Negative));
    assert_eq!(SectionDuration::new(0, -1), Err(DurationError::Negative));
    assert_eq!(SectionDuration::new(-7200, 0), Err(DurationError::Negative));
    assert_eq!(SectionDuration::new(i64::MIN, i32::MIN), Err(DurationError::Negative));
    assert_eq!(SectionDuration::from_minutes(-1), Err(DurationError::Negative));
    assert_eq!(SectionDuration::from_minutes(i64::MIN), Err(DurationError::Negative));
}

#[test]
fn two_hours_and_more_are_refused() {
    assert_eq!(SectionDuration::new(7200, 0), Err(DurationError::TooLong));
    assert_eq!(SectionDuration::new(7199, 1_000_000_000), Err(DurationError::TooLong));
    assert_eq!(SectionDuration::new(10_000, 0), Err(DurationError::TooLong));
    assert_eq!(SectionDuration::new(i64::MAX, i32::MAX), Err(DurationError::TooLong));
    assert_eq!(SectionDuration::from_minutes(120), Err(DurationError::TooLong));
    assert_eq!(SectionDuration::from_minutes(i64::MAX), Err(DurationError::TooLong));
}

#[test]
fn just_below_two_hours_is_kept() {
    let longest = SectionDuration::new(7199, 999_999_999).unwrap();
    assert_eq!(longest.into_inner(), (7199, 999_999_999));
    assert_eq!(longest.num_seconds(), 7199);
    assert_eq!(SectionDuration::from_minutes(119).unwrap().into_inner(), (7140, 0));
}

#[test]
fn span_is_kept_by_its_length() {
    let half = SectionDuration::new(1, -500_000_000).unwrap();
    assert_eq!(half.into_inner(), (0, 500_000_000));
    assert_eq!(half, SectionDuration::new(0, 500_000_000).unwrap());
}

#[test]
fn minutes_are_sixty_seconds() {
    assert_eq!(SectionDuration::from_minutes(90).unwrap().into_inner(), (5400, 0));
    assert_eq!(SectionDuration::from_minutes(0).unwrap(), SectionDuration::default());
    assert_eq!(
        SectionDuration::from_minutes(5).unwrap(),
        SectionDuration::new(300, 0).unwrap()
    );
}

#[test]
fn duration_round_trips_through_chrono() {
    for delta in [
        TimeDelta::zero(),
        TimeDelta::minutes(5),
        TimeDelta::milliseconds(1500),
        TimeDelta::nanoseconds(7_199_999_999_999),
    ] {
        let duration = from_delta(delta).unwrap();
        let (seconds, nanos) = duration.into_inner();
        assert_eq!(TimeDelta::new(seconds, nanos as u32).unwrap(), delta);
        assert_eq!(duration.is_zero(), delta.is_zero());
        assert_eq!(duration.num_seconds() as i64, delta.num_seconds());
    }
}

#[test]
fn chrono_spans_out_of_range_are_refused() {
    assert_eq!(from_delta(TimeDelta::milliseconds(-500)), Err(DurationError::Negative));
    assert_eq!(from_delta(TimeDelta::seconds(-1)), Err(DurationError::Negative));
    assert_eq!(from_delta(TimeDelta::hours(2)), Err(DurationError::TooLong));
    assert_eq!(from_delta(TimeDelta::days(1)), Err(DurationError::TooLong));
    assert!(from_delta(TimeDelta::hours(2) - TimeDelta::nanoseconds(1)).is_ok());
}

#[test]
fn duration_in_words() {
    assert_eq!(SectionDuration::default().to_string(), "00h 00m 00s");
    assert_eq!(SectionDuration::from_minutes(5).unwrap().to_string(), "00h 05m 00s");
    assert_eq!(SectionDuration::from_minutes(90).unwrap().to_string(), "01h 30m 00s");
    assert_eq!(SectionDuration::new(7199, 999_999_999).unwrap().to_string(), "01h 59m 59s");
    assert_eq!(SectionDuration::new(3723, 0).unwrap().to_string(), "01h 02m 03s");
    assert_eq!(SectionDuration::new(47, 0).unwrap().to_string(), "00h 00m 47s");
}

#[test]
fn duration_in_words_as_chrono_counts() {
    for seconds in [0i64, 59, 60, 3599, 3600, 4689, 7199] {
        let delta = TimeDelta::seconds(seconds);
        let expected = format!(
            "{:02}h {:02}m {:02}s",
            delta.num_hours(),
            delta.num_minutes() % 60,
            delta.num_seconds() % 60
        );
        assert_eq!(from_delta(delta).unwrap().to_string(), expected);
    }
}

#[test]
fn refusals_in_words() {
    assert_eq!(DurationError::Negative.message(), "delta is negative");
    assert_eq!(
        DurationError::TooLong.message(),
        "cannot water section for more than 2 hours"
    );
}

#[test]
fn sections_follow_each_other_in_a_cycle() {
    assert_eq!(Section::Vegs.next_cycle(), Section::Flowers);
    assert_eq!(Section::Flowers.next_cycle(), Section::Grass);
    assert_eq!(Section::Grass.next_cycle(), Section::Terrace);
    assert_eq!(Section::Terrace.next_cycle(), Section::Off);
    assert_eq!(Section::Off.next_cycle(), Section::Vegs);
}

#[test]
fn all_sections_in_watering_order() {
    let all = Section::all();
    assert_eq!(
        all,
        vec![Section::Vegs, Section::Flowers, Section::Grass, Section::Terrace, Section::Off]
    );
    for pair in all.windows(2) {
        assert_eq!(pair[0].next_cycle(), pair[1]);
    }
}
