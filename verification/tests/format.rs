use alarm_clock::alarm::{Alarm, Mode};
use alarm_clock::datetime::DateTime;
use alarm_clock::datetime::DayOfWeek;
use alarm_clock::text::{dow_name, fmt_centi, fmt_u32, fmt_u32_pad2, fmt_u32_spaces2};

#[test]
fn centi() {
    assert_eq!(fmt_centi(i32::MAX), "21474836.47");

    assert_eq!(fmt_centi(1000), "10.00");
    assert_eq!(fmt_centi(1001), "10.01");
    assert_eq!(fmt_centi(1099), "10.99");

    assert_eq!(fmt_centi(0), "0.00");
    assert_eq!(fmt_centi(1), "0.01");
    assert_eq!(fmt_centi(99), "0.99");

    assert_eq!(fmt_centi(-1), "-0.01");
    assert_eq!(fmt_centi(-99), "-0.99");

    assert_eq!(fmt_centi(-1000), "-10.00");
    assert_eq!(fmt_centi(-1001), "-10.01");
    assert_eq!(fmt_centi(-1099), "-10.99");

    assert_eq!(fmt_centi(i32::MIN), "-21474836.48");
}

#[test]
fn decimal_digits() {
    assert_eq!(fmt_u32(0), "0");
    assert_eq!(fmt_u32(7), "7");
    assert_eq!(fmt_u32(10), "10");
    assert_eq!(fmt_u32(1234), "1234");
    assert_eq!(fmt_u32(4294967295), "4294967295");
    assert_eq!(fmt_u32_pad2(0), "00");
    assert_eq!(fmt_u32_pad2(9), "09");
    assert_eq!(fmt_u32_pad2(10), "10");
    assert_eq!(fmt_u32_pad2(59), "59");
    assert_eq!(fmt_u32_spaces2(5), " 5");
    assert_eq!(fmt_u32_spaces2(55), "55");
    assert_eq!(fmt_u32_spaces2(255), "255");
}

#[test]
fn datetime_line() {
    assert_eq!(
        DateTime::new(1540052501).to_text(),
        "2018-10-20 16:21:41 (Saturday)"
    );
    assert_eq!(DateTime::new(0).to_text(), "1970-01-01 00:00:00 (Thursday)");
}

#[test]
fn day_names() {
    assert_eq!(dow_name(DayOfWeek::Monday), "Monday");
    assert_eq!(dow_name(DayOfWeek::Sunday), "Sunday");
}

#[test]
fn alarm_lines() {
    let mut a = Alarm::default();
    assert_eq!(a.to_text(), "Off 12:00 Mo Tu We Th Fr");
    a.is_enable = true;
    a.set_hour(7);
    a.set_min(25);
    a.mode = Mode::empty();
    a.mode.insert_dow(DayOfWeek::Monday);
    a.mode.insert_dow(DayOfWeek::Sunday);
    assert_eq!(a.to_text(), "On  07:25 Mo Su");
    a.mode.insert_one_time();
    assert_eq!(a.to_text(), "On  07:25 one time");
    a.mode = Mode::empty();
    assert_eq!(a.to_text(), "On  07:25 never");
    a.is_enable = false;
    assert_eq!(a.to_text(), "Off 07:25 never");
}
