use alarm_clock::datetime::{DateTime, DayOfWeek};

fn epoch_start() -> DateTime {
    DateTime {
        year: 1970,
        month: 1,
        day: 1,
        hour: 0,
        min: 0,
        sec: 0,
        day_of_week: DayOfWeek::Thursday,
    }
}

fn end_of_time() -> DateTime {
    DateTime {
        year: 2106,
        month: 2,
        day: 7,
        hour: 6,
        min: 28,
        sec: 15,
        day_of_week: DayOfWeek::Sunday,
    }
}

#[test]
fn test_epoch() {
    assert_eq!(DateTime::new(0), epoch_start());
    assert_eq!(DateTime::new(u32::MAX), end_of_time());
    assert_eq!(
        DateTime::new(1540052501),
        DateTime {
            year: 2018,
            month: 10,
            day: 20,
            hour: 16,
            min: 21,
            sec: 41,
            day_of_week: DayOfWeek::Saturday,
        }
    );
    assert_eq!(epoch_start().to_epoch(), Some(0));
    assert_eq!(end_of_time().to_epoch(), Some(u32::MAX));
    assert_eq!(
        DateTime {
            sec: 16,
            ..end_of_time()
        }
        .to_epoch(),
        None
    );
    assert_eq!(
        DateTime {
            year: 1969,
            month: 12,
            day: 31,
            hour: 23,
            min: 59,
            sec: 59,
            day_of_week: DayOfWeek::Wednesday,
        }
        .to_epoch(),
        None
    );
}

#[test]
fn round_trip_samples() {
    let samples: [u32; 12] = [
        0,
        1,
        59,
        86399,
        86400,
        951782399,  // 2000-02-28 23:59:59
        951782400,  // 2000-02-29, a leap day of a year divisible by 400
        1540052501,
        4102444800, // 2100-01-01, a century year that is not leap
        4107542399,
        4294967294,
        u32::MAX,
    ];
    for &s in samples.iter() {
        assert_eq!(DateTime::new(s).to_epoch(), Some(s));
    }
    // an even spread over the whole counter range
    for k in 0..4096u32 {
        let s = k.wrapping_mul(1048583);
        assert_eq!(DateTime::new(s).to_epoch(), Some(s));
    }
}

#[test]
fn boundary_values() {
    let start = DateTime::new(0);
    assert_eq!(
        (start.year, start.month, start.day, start.hour, start.min, start.sec),
        (1970, 1, 1, 0, 0, 0)
    );
    assert_eq!(start.day_of_week, DayOfWeek::Thursday);
    let end = DateTime::new(u32::MAX);
    assert_eq!(
        (end.year, end.month, end.day, end.hour, end.min, end.sec),
        (2106, 2, 7, 6, 28, 15)
    );
    assert_eq!(end.day_of_week, DayOfWeek::Sunday);
}

#[test]
fn invalid_inverse() {
    let base = epoch_start();
    assert_eq!(DateTime { month: 0, ..base }.to_epoch(), None);
    assert_eq!(DateTime { month: 13, ..base }.to_epoch(), None);
    assert_eq!(DateTime { day: 0, ..base }.to_epoch(), None);
    assert_eq!(DateTime { year: 1969, ..base }.to_epoch(), None);
    assert_eq!(DateTime { year: 1000, ..base }.to_epoch(), None);
    // one second past the end of the counter
    assert_eq!(DateTime { sec: 16, ..end_of_time() }.to_epoch(), None);
    // a whole year past the end
    assert_eq!(DateTime { year: 2107, ..end_of_time() }.to_epoch(), None);
}

#[test]
fn leap_year_lengths() {
    // 1972 is leap: Feb 29 exists and day numbers line up
    let feb29_1972 = DateTime {
        year: 1972,
        month: 2,
        day: 29,
        hour: 0,
        min: 0,
        sec: 0,
        day_of_week: DayOfWeek::Tuesday,
    };
    let e = feb29_1972.to_epoch().unwrap();
    assert_eq!(DateTime::new(e), feb29_1972);
    // 2100 is not leap: Feb 28 is directly followed by Mar 1
    let feb28_2100 = DateTime {
        year: 2100,
        month: 2,
        day: 28,
        hour: 23,
        min: 59,
        sec: 59,
        day_of_week: DayOfWeek::Sunday,
    };
    let next = DateTime::new(feb28_2100.to_epoch().unwrap() + 1);
    assert_eq!((next.year, next.month, next.day), (2100, 3, 1));
}

#[test]
fn day_of_week_cycle() {
    assert_eq!(DayOfWeek::Monday.next(), DayOfWeek::Tuesday);
    assert_eq!(DayOfWeek::Sunday.next(), DayOfWeek::Monday);
    assert_eq!(DayOfWeek::from_days_since_epoch(0), DayOfWeek::Thursday);
    assert_eq!(DayOfWeek::from_days_since_epoch(4), DayOfWeek::Monday);
    assert_eq!(DayOfWeek::from_days_since_epoch(11), DayOfWeek::Monday);
}
