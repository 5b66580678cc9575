use hayagriva_manager::date::format_date;
use hayagriva_manager::PartialDate;

fn date(year: i32, month: Option<u8>, day: Option<u8>) -> String {
    format_date(&PartialDate { year, month, day })
}

#[test]
fn date_full() {
    assert_eq!(date(2020, Some(5), Some(3)), "2020-05-03");
}

#[test]
fn date_year_and_month() {
    assert_eq!(date(2020, Some(5), None), "2020-05");
}

#[test]
fn date_year_only() {
    assert_eq!(date(2020, None, None), "2020");
}

#[test]
fn date_day_without_month_is_empty() {
    assert_eq!(date(2020, None, Some(3)), "");
}

#[test]
fn date_small_year_is_padded() {
    assert_eq!(date(33, Some(12), Some(31)), "0033-12-31");
    assert_eq!(date(0, None, None), "0000");
}

#[test]
fn date_negative_year() {
    assert_eq!(date(-5, None, None), "-005");
    assert_eq!(date(-12345, Some(1), None), "-12345-01");
}

#[test]
fn date_long_year() {
    assert_eq!(date(12345, Some(10), Some(9)), "12345-10-09");
    assert_eq!(date(i32::MAX, None, None), "2147483647");
    assert_eq!(date(i32::MIN, None, None), "-2147483648");
}
