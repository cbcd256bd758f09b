//! The clock and its calendar flyout: Gregorian month data, the month grid
//! the flyout paints (the weekday of the 1st derived from today's weekday),
//! and the bar's 12-hour clock text.

use vstd::prelude::*;
use vstd::string::*;
use crate::geometry::Rect;
use crate::status::{decimal, decimal_string};

verus! {

/// Gregorian leap years: divisible by 4, except centuries not divisible by 400.
pub open spec fn is_leap_year_spec(year: int) -> bool {
    (year % 4 == 0 && year % 100 != 0) || year % 400 == 0
}

/// Whether `year` is a Gregorian leap year.
pub fn is_leap_year(year: i32) -> (r: bool)
    ensures
        r == is_leap_year_spec(year as int),
{
    (year % 4 == 0 && year % 100 != 0) || year % 400 == 0
}

/// Days in `month` (1-based) of `year`.
pub open spec fn days_in_month_spec(year: int, month: int) -> int {
    if month == 2 {
        if is_leap_year_spec(year) { 29 } else { 28 }
    } else if month == 4 || month == 6 || month == 9 || month == 11 {
        30
    } else {
        31
    }
}

/// Days in `month` (1-based) of `year`: February has 29 in leap years.
pub fn days_in_month(year: i32, month: i32) -> (r: i32)
    requires
        1 <= month <= 12,
    ensures
        r == days_in_month_spec(year as int, month as int),
{
    let days: [i32; 12] = [31, 28, 31, 30, 31, 30, 31, 31, 30, 31, 30, 31];
    if month == 2 && is_leap_year(year) {
        29
    } else {
        days[(month - 1) as usize]
    }
}

/// A month has 28 to 31 days, and a year 365 days (366 in a leap year).
pub proof fn lemma_month_lengths(year: int)
    ensures
        forall|m: int| 1 <= m <= 12 ==> 28 <= #[trigger] days_in_month_spec(year, m) <= 31,
        days_in_month_spec(year, 1) + days_in_month_spec(year, 2) + days_in_month_spec(year, 3)
            + days_in_month_spec(year, 4) + days_in_month_spec(year, 5) + days_in_month_spec(year, 6)
            + days_in_month_spec(year, 7) + days_in_month_spec(year, 8) + days_in_month_spec(year, 9)
            + days_in_month_spec(year, 10) + days_in_month_spec(year, 11) + days_in_month_spec(year, 12)
            == if is_leap_year_spec(year) { 366int } else { 365int },
{
}

/// The English name of `month` (1-based).
pub open spec fn month_name_spec(month: int) -> Seq<char> {
    if month == 1 { "January"@ }
    else if month == 2 { "February"@ }
    else if month == 3 { "March"@ }
    else if month == 4 { "April"@ }
    else if month == 5 { "May"@ }
    else if month == 6 { "June"@ }
    else if month == 7 { "July"@ }
    else if month == 8 { "August"@ }
    else if month == 9 { "September"@ }
    else if month == 10 { "October"@ }
    else if month == 11 { "November"@ }
    else { "December"@ }
}

/// The full English name of `month` (1-based).
pub fn month_name(month: i32) -> (r: &'static str)
    requires
        1 <= month <= 12,
    ensures
        r@ == month_name_spec(month as int),
{
    let names: [&'static str; 12] = [
        "January",
        "February",
        "March",
        "April",
        "May",
        "June",
        "July",
        "August",
        "September",
        "October",
        "November",
        "December",
    ];
    names[(month - 1) as usize]
}

/// The weekday (0 = Sunday) of the 1st of the month, from today's day of
/// the month and weekday.
pub open spec fn first_weekday_spec(today: int, today_dow: int) -> int {
    (today_dow - (today - 1)) % 7
}

/// The weekday (0 = Sunday) of the 1st of the current month: a fixed
/// number of days before today.
pub fn first_weekday(today: i32, today_dow: i32) -> (r: i32)
    requires
        1 <= today <= 31,
        0 <= today_dow <= 6,
    ensures
        r == first_weekday_spec(today as int, today_dow as int),
        0 <= r < 7,
        (r + today - 1) % 7 == today_dow,
{
    let r = ((today_dow - (today - 1)) % 7 + 7) % 7;
    assert(r == (today_dow - (today - 1)) % 7) by (nonlinear_arith)
        requires
            r == ((today_dow - (today - 1)) % 7 + 7) % 7,
            -30 <= today_dow - (today - 1) <= 6,
    ;
    assert((r + today - 1) % 7 == today_dow) by (nonlinear_arith)
        requires
            r == (today_dow - (today - 1)) % 7,
            0 <= today_dow <= 6,
    ;
    r
}

/// Calendar flyout layout (unscaled pixels).
pub const CAL_WIDTH: i32 = 320;
pub const CAL_CALENDAR_HEIGHT: i32 = 300;
pub const CAL_NOTIF_HEIGHT: i32 = 140;
pub const CAL_HEIGHT: i32 = CAL_CALENDAR_HEIGHT + CAL_NOTIF_HEIGHT;
pub const CAL_PADDING: i32 = 12;
pub const CAL_CELL_HEIGHT: i32 = 34;
/// Top of the first row of day cells.
pub const CAL_GRID_TOP: i32 = 64;

/// Width of one day column: seven columns between the side paddings.
pub open spec fn cal_cell_width() -> int {
    (CAL_WIDTH - CAL_PADDING * 2) / 7
}

/// The cell of day `day` (1-based) when the 1st falls on weekday `first`.
pub open spec fn day_cell(first: int, day: int) -> Rect {
    let slot = first + day - 1;
    let col = slot % 7;
    let row = slot / 7;
    let w = cal_cell_width();
    Rect {
        left: (CAL_PADDING + col * w) as i32,
        top: (CAL_GRID_TOP + row * CAL_CELL_HEIGHT) as i32,
        right: (CAL_PADDING + col * w + w) as i32,
        bottom: (CAL_GRID_TOP + row * CAL_CELL_HEIGHT + CAL_CELL_HEIGHT) as i32,
    }
}

/// The rects of the month's day cells (index `d - 1` for day `d`): days fill
/// a seven-column grid row by row, starting in column `first`.
pub fn calendar_cells(first: i32, days: i32) -> (cells: Vec<Rect>)
    requires
        0 <= first < 7,
        0 <= days <= 31,
    ensures
        cells@.len() == days,
        forall|d: int| 1 <= d <= days ==> #[trigger] cells@[d - 1] == day_cell(first as int, d),
{
    let cell_w: i32 = (CAL_WIDTH - CAL_PADDING * 2) / 7;
    assert(cell_w == 42);
    let mut cells: Vec<Rect> = Vec::new();
    let mut day: i32 = 1;
    let mut col: i32 = first;
    let mut row: i32 = 0;
    while day <= days
        invariant
            1 <= day <= days + 1,
            days <= 31,
            0 <= first < 7,
            cell_w == cal_cell_width(),
            cell_w == 42,
            0 <= col < 7,
            0 <= row <= 5,
            col == (first + day - 1) % 7,
            row == (first + day - 1) / 7,
            cells@.len() == day - 1,
            forall|d: int| 1 <= d < day ==> #[trigger] cells@[d - 1] == day_cell(first as int, d),
        decreases days + 1 - day,
    {
        let x = CAL_PADDING + col * cell_w;
        let y = CAL_GRID_TOP + row * CAL_CELL_HEIGHT;
        cells.push(Rect { left: x, top: y, right: x + cell_w, bottom: y + CAL_CELL_HEIGHT });
        day += 1;
        col += 1;
        if col == 7 {
            col = 0;
            row += 1;
        }
        assert(col == (first + day - 1) % 7 && row == (first + day - 1) / 7) by (nonlinear_arith)
            requires
                (col == 0 && row == (first + day - 2) / 7 + 1 && (first + day - 2) % 7 == 6) || (col == (
                first + day - 2) % 7 + 1 && row == (first + day - 2) / 7 && col < 7),
                first + day - 2 >= 0,
        ;
    }
    cells
}

/// Distinct days of the month get distinct grid cells (same row and column
/// only for the same day).
pub proof fn lemma_day_cells_distinct(first: int, d1: int, d2: int)
    requires
        0 <= first < 7,
        1 <= d1 < d2 <= 31,
    ensures
        (first + d1 - 1) % 7 != (first + d2 - 1) % 7 || (first + d1 - 1) / 7 != (first + d2 - 1) / 7,
{
    assert((first + d1 - 1) % 7 != (first + d2 - 1) % 7 || (first + d1 - 1) / 7 != (first + d2 - 1) / 7)
        by (nonlinear_arith)
        requires
            0 <= first + d1 - 1 < first + d2 - 1,
    ;
}

/// `v` (below 100) as exactly two decimal digits.
pub open spec fn two_digits(v: nat) -> Seq<char> {
    if v < 10 { "0"@ + decimal(v) } else { decimal(v) }
}

fn two_digit_string(v: u32) -> (s: String)
    requires
        v < 100,
    ensures
        s@ == two_digits(v as nat),
{
    if v < 10 {
        let mut s = String::from_str("0");
        let d = decimal_string(v);
        s.append(d.as_str());
        s
    } else {
        decimal_string(v)
    }
}

/// The 12-hour clock hour for a 24-hour `hour` (midnight and noon are 12).
pub open spec fn hour12(hour: int) -> int {
    if hour % 12 == 0 { 12 } else { hour % 12 }
}

/// The bar's clock text, `"HH:MM AM"` / `"HH:MM PM"`.
pub fn clock_text(hour: u16, minute: u16) -> (s: String)
    requires
        hour < 24,
        minute < 60,
    ensures
        s@ == two_digits(hour12(hour as int) as nat) + ":"@ + two_digits(minute as nat) + " "@ + (if hour < 12 {
            "AM"@
        } else {
            "PM"@
        }),
{
    let h: u16 = hour % 12;
    let h12: u16 = if h == 0 { 12 } else { h };
    let mut s = two_digit_string(h12 as u32);
    s.append(":");
    let m = two_digit_string(minute as u32);
    s.append(m.as_str());
    s.append(" ");
    if hour < 12 {
        s.append("AM");
    } else {
        s.append("PM");
    }
    s
}

/// The flyout heading, `"<Month> <year>"`.
pub fn calendar_title(month: i32, year: u16) -> (s: String)
    requires
        1 <= month <= 12,
    ensures
        s@ == month_name_spec(month as int) + " "@ + decimal(year as nat),
{
    let mut s = String::from_str(month_name(month));
    s.append(" ");
    let y = decimal_string(year as u32);
    s.append(y.as_str());
    s
}

} // verus!
