use flipper::date::validate_date;
use flipper::{CatalogError, Flipper};

fn month_length(year: u32, month: u8) -> u8 {
    let leap = year % 4 == 0 && (year % 100 != 0 || year % 400 == 0);
    [31, if leap { 29 } else { 28 }, 31, 30, 31, 30, 31, 31, 30, 31, 30, 31][month as usize - 1]
}

#[test]
fn every_day_of_every_accepted_year_is_judged_by_its_month() {
    for year in 2000..=2025u32 {
        for month in 1..=12u8 {
            for day in 1..=31u8 {
                let r = validate_date(year, month, day);
                if day <= month_length(year, month) {
                    assert_eq!(r, Ok(()), "{year}-{month}-{day}");
                } else {
                    assert_eq!(r, Err(CatalogError::InvalidCalendarDate), "{year}-{month}-{day}");
                }
            }
        }
    }
}

#[test]
fn leap_years_among_the_accepted_years() {
    let leap: Vec<u32> = (2000..=2025).filter(|y| validate_date(*y, 2, 29).is_ok()).collect();
    assert_eq!(leap, vec![2000, 2004, 2008, 2012, 2016, 2020, 2024]);
}

#[test]
fn leap_day_needs_a_leap_year() {
    assert_eq!(validate_date(2024, 2, 29), Ok(()));
    assert_eq!(validate_date(2023, 2, 29), Err(CatalogError::InvalidCalendarDate));
    assert_eq!(validate_date(2023, 2, 28), Ok(()));
    assert_eq!(validate_date(2024, 2, 30), Err(CatalogError::InvalidCalendarDate));
}

#[test]
fn the_year_is_bounded_on_both_sides() {
    assert_eq!(validate_date(1999, 12, 31), Err(CatalogError::YearOutOfRange));
    assert_eq!(validate_date(2000, 1, 1), Ok(()));
    assert_eq!(validate_date(2025, 12, 31), Ok(()));
    assert_eq!(validate_date(2026, 1, 1), Err(CatalogError::YearOutOfRange));
    assert_eq!(validate_date(0, 1, 1), Err(CatalogError::YearOutOfRange));
    assert_eq!(validate_date(u32::MAX, 1, 1), Err(CatalogError::YearOutOfRange));
}

#[test]
fn the_month_is_bounded_on_both_sides() {
    assert_eq!(validate_date(2010, 0, 10), Err(CatalogError::MonthOutOfRange));
    assert_eq!(validate_date(2010, 1, 10), Ok(()));
    assert_eq!(validate_date(2010, 12, 10), Ok(()));
    assert_eq!(validate_date(2010, 13, 10), Err(CatalogError::MonthOutOfRange));
    assert_eq!(validate_date(2010, 255, 10), Err(CatalogError::MonthOutOfRange));
}

#[test]
fn the_day_is_bounded_on_both_sides() {
    assert_eq!(validate_date(2010, 1, 0), Err(CatalogError::DayOutOfRange));
    assert_eq!(validate_date(2010, 1, 1), Ok(()));
    assert_eq!(validate_date(2010, 1, 31), Ok(()));
    assert_eq!(validate_date(2010, 1, 32), Err(CatalogError::DayOutOfRange));
    assert_eq!(validate_date(2010, 1, 255), Err(CatalogError::DayOutOfRange));
}

#[test]
fn a_day_past_31_is_out_of_range_even_in_a_short_month() {
    assert_eq!(validate_date(2010, 4, 40), Err(CatalogError::DayOutOfRange));
    assert_eq!(validate_date(2010, 2, 32), Err(CatalogError::DayOutOfRange));
    assert_eq!(validate_date(2010, 4, 31), Err(CatalogError::InvalidCalendarDate));
}

#[test]
fn the_first_broken_rule_is_reported() {
    assert_eq!(validate_date(1500, 18, 50), Err(CatalogError::YearOutOfRange));
    assert_eq!(validate_date(2010, 18, 50), Err(CatalogError::MonthOutOfRange));
    assert_eq!(validate_date(2010, 2, 50), Err(CatalogError::DayOutOfRange));
    assert_eq!(validate_date(2010, 2, 30), Err(CatalogError::InvalidCalendarDate));
}

#[test]
fn the_catalog_checks_dates_as_the_date_rules_do() {
    let flipper = Flipper::default();
    for (year, month, day) in
        [(2024, 2, 29), (2023, 2, 29), (1999, 1, 1), (2010, 13, 1), (2010, 6, 0), (2010, 6, 31)]
    {
        assert_eq!(flipper.checa_data(year, month, day), validate_date(year, month, day));
    }
    assert_eq!(flipper.checa_data(2010, 6, 31), Err(CatalogError::InvalidCalendarDate));
}
