//! Calendar rules for release dates.

use vstd::prelude::*;
use crate::error::{CatalogError, CatalogErrorView};

verus! {

/// The first release year that the catalog accepts.
pub const MIN_YEAR: u32 = 2000;

/// The last release year that the catalog accepts.
pub const MAX_YEAR: u32 = 2025;

/// A year is a leap year when it is divisible by 4, centuries only when
/// divisible by 400.
pub open spec fn is_leap_year(year: int) -> bool {
    year % 4 == 0 && (year % 100 != 0 || year % 400 == 0)
}

/// The number of days of a month, February's depending on the year.
pub open spec fn days_in_month(year: int, month: int) -> int {
    if month == 2 {
        if is_leap_year(year) { 29 } else { 28 }
    } else if month == 4 || month == 6 || month == 9 || month == 11 {
        30
    } else {
        31
    }
}

/// A date that the catalog accepts: a year in range and a day that exists.
pub open spec fn valid_date(year: int, month: int, day: int) -> bool {
    &&& MIN_YEAR <= year <= MAX_YEAR
    &&& 1 <= month <= 12
    &&& 1 <= day <= days_in_month(year, month)
}

/// The first rule that a date breaks, if any: the year's range, then the
/// month's, then the day's, then the length of the month.
pub open spec fn date_error(year: int, month: int, day: int) -> Option<CatalogErrorView> {
    if year < MIN_YEAR || year > MAX_YEAR {
        Some(CatalogErrorView::YearOutOfRange)
    } else if month < 1 || month > 12 {
        Some(CatalogErrorView::MonthOutOfRange)
    } else if day < 1 || day > 31 {
        Some(CatalogErrorView::DayOutOfRange)
    } else if day > days_in_month(year, month) {
        Some(CatalogErrorView::InvalidCalendarDate)
    } else {
        None
    }
}

/// A date is refused exactly when it is not a valid date.
pub proof fn lemma_valid_date_accepted(year: int, month: int, day: int)
    ensures
        date_error(year, month, day) is None <==> valid_date(year, month, day),
{
}

/// With the year, the month and the day each in its own range, a day beyond
/// the end of its month is refused as an impossible calendar date.
pub proof fn lemma_day_beyond_month_rejected(year: int, month: int, day: int)
    requires
        MIN_YEAR <= year <= MAX_YEAR,
        1 <= month <= 12,
        1 <= day <= 31,
        day > days_in_month(year, month),
    ensures
        date_error(year, month, day) == Some(CatalogErrorView::InvalidCalendarDate),
{
}

/// Checks a release date and reports the first rule that it breaks.
pub fn validate_date(year: u32, month: u8, day: u8) -> (r: Result<(), CatalogError>)
    ensures
        r is Ok <==> valid_date(year as int, month as int, day as int),
        match r {
            Ok(()) => date_error(year as int, month as int, day as int) is None,
            Err(e) => date_error(year as int, month as int, day as int) == Some(e@),
        },
{
    if year < MIN_YEAR || year > MAX_YEAR {
        return Err(CatalogError::YearOutOfRange);
    }
    if month < 1 || month > 12 {
        return Err(CatalogError::MonthOutOfRange);
    }
    if day < 1 || day > 31 {
        return Err(CatalogError::DayOutOfRange);
    }
    match month {
        4 | 6 | 9 | 11 => {
            if day > 30 {
                return Err(CatalogError::InvalidCalendarDate);
            }
        },
        2 => {
            if year % 4 == 0 && (year % 100 != 0 || year % 400 == 0) {
                if day > 29 {
                    return Err(CatalogError::InvalidCalendarDate);
                }
            } else if day > 28 {
                return Err(CatalogError::InvalidCalendarDate);
            }
        },
        _ => {},
    }
    Ok(())
}

} // verus!
