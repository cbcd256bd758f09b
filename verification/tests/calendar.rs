use groveshell::calendar::{
    calendar_cells, calendar_title, clock_text, days_in_month, first_weekday, is_leap_year, month_name,
};

#[test]
fn leap_years_follow_the_gregorian_rule() {
    assert!(is_leap_year(2024)); // divisible by 4
    assert!(!is_leap_year(1900)); // divisible by 100, not 400
    assert!(is_leap_year(2000)); // divisible by 400
    assert!(!is_leap_year(2023)); // not divisible by 4
}

#[test]
fn february_has_29_days_in_a_leap_year_and_28_otherwise() {
    assert_eq!(days_in_month(2024, 2), 29);
    assert_eq!(days_in_month(2023, 2), 28);
}

#[test]
fn days_in_month_matches_the_calendar_for_every_month() {
    let expected = [31, 28, 31, 30, 31, 30, 31, 31, 30, 31, 30, 31];
    for (i, &days) in expected.iter().enumerate() {
        assert_eq!(days_in_month(2023, i as i32 + 1), days);
    }
}

#[test]
fn month_name_returns_the_full_english_name() {
    assert_eq!(month_name(1), "January");
    assert_eq!(month_name(12), "December");
}

#[test]
fn a_year_has_365_or_366_days() {
    for (year, total) in [(2023, 365), (2024, 366), (1900, 365), (2000, 366)] {
        let sum: i32 = (1..=12).map(|m| days_in_month(year, m)).sum();
        assert_eq!(sum, total);
    }
}

#[test]
fn first_weekday_counts_back_from_today() {
    // Wednesday the 15th: the 1st was a Wednesday too.
    assert_eq!(first_weekday(15, 3), 3);
    // Sunday the 2nd: the 1st was a Saturday.
    assert_eq!(first_weekday(2, 0), 6);
    assert_eq!(first_weekday(1, 5), 5);
}

#[test]
fn calendar_cells_place_each_day_in_its_weekday_column() {
    let cells = calendar_cells(3, 30);
    assert_eq!(cells.len(), 30);
    // Day 1 sits in column 3 of the first row; day 5 wraps to column 0.
    assert_eq!(cells[0].left, cells[4].left + 3 * 42);
    assert_eq!(cells[4].top, cells[0].top + 34);
    assert_eq!(cells[0].right - cells[0].left, 42);
    for i in 0..cells.len() {
        for j in (i + 1)..cells.len() {
            assert_ne!(cells[i], cells[j]);
        }
    }
}

#[test]
fn clock_text_is_twelve_hour_with_padding() {
    assert_eq!(clock_text(0, 5), "12:05 AM");
    assert_eq!(clock_text(13, 45), "01:45 PM");
    assert_eq!(clock_text(12, 0), "12:00 PM");
    assert_eq!(clock_text(9, 30), "09:30 AM");
}

#[test]
fn calendar_title_is_month_then_year() {
    assert_eq!(calendar_title(7, 2026), "July 2026");
}
