use alarm_clock::alarm::{Alarm, AlarmManager, Mode};
use alarm_clock::datetime::{DateTime, DayOfWeek};

fn mode_of(days: &[DayOfWeek]) -> Mode {
    let mut m = Mode::empty();
    for d in days {
        m.insert_dow(*d);
    }
    m
}

fn default_alarm_manager() -> AlarmManager {
    let mut alarm_manager = AlarmManager::default();
    alarm_manager.alarms[0].is_enable = true;
    alarm_manager.alarms[0].set_hour(7);
    alarm_manager.alarms[0].set_min(25);
    alarm_manager.alarms[0].mode = mode_of(&[
        DayOfWeek::Monday,
        DayOfWeek::Tuesday,
        DayOfWeek::Thursday,
        DayOfWeek::Friday,
    ]);
    alarm_manager.alarms[1].is_enable = true;
    alarm_manager.alarms[1].set_hour(8);
    alarm_manager.alarms[1].set_min(15);
    alarm_manager.alarms[1].mode = mode_of(&[DayOfWeek::Wednesday]);
    alarm_manager
}

#[test]
fn test_next_ring() {
    let alarm_manager = default_alarm_manager();

    let datetime = DateTime {
        year: 2018,
        month: 10,
        day: 17,
        hour: 9,
        min: 0,
        sec: 0,
        day_of_week: DayOfWeek::Wednesday,
    };

    let next = alarm_manager.next_ring(&datetime);
    assert_eq!(next, Some((DayOfWeek::Thursday, 7, 25)));
}

#[test]
fn test_next_ring_one_time() {
    let mut alarm_manager = default_alarm_manager();
    alarm_manager.alarms[2].is_enable = true;
    alarm_manager.alarms[2].set_hour(17);
    alarm_manager.alarms[2].set_min(30);
    alarm_manager.alarms[2].mode.insert_one_time();

    let datetime = DateTime {
        year: 2018,
        month: 12,
        day: 1,
        hour: 17,
        min: 21,
        sec: 0,
        day_of_week: DayOfWeek::Saturday,
    };

    let next = alarm_manager.next_ring(&datetime);
    assert_eq!(next, Some((DayOfWeek::Saturday, 17, 30)));
}

#[test]
fn test_next_ring_never() {
    let mut alarm_manager = default_alarm_manager();
    alarm_manager.alarms[2].is_enable = true;
    alarm_manager.alarms[2].set_hour(17);
    alarm_manager.alarms[2].set_min(30);
    alarm_manager.alarms[2].mode = Mode::empty();

    let datetime = DateTime {
        year: 2018,
        month: 12,
        day: 1,
        hour: 17,
        min: 21,
        sec: 0,
        day_of_week: DayOfWeek::Saturday,
    };

    let next = alarm_manager.next_ring(&datetime);
    assert_eq!(next, Some((DayOfWeek::Monday, 7, 25)));
}

fn monday_0725(sec: u8) -> DateTime {
    DateTime {
        year: 2018,
        month: 10,
        day: 15,
        hour: 7,
        min: 25,
        sec,
        day_of_week: DayOfWeek::Monday,
    }
}

#[test]
fn must_ring_only_at_second_zero() {
    let mut manager = default_alarm_manager();
    assert!(manager.must_ring(&monday_0725(0)));
    // the same minute, one second later: no second trigger
    assert!(!manager.must_ring(&monday_0725(1)));
    assert!(!manager.must_ring(&monday_0725(59)));
    // the matching minute of a day the mode does not select
    let wednesday = DateTime {
        year: 2018,
        month: 10,
        day: 17,
        hour: 7,
        min: 25,
        sec: 0,
        day_of_week: DayOfWeek::Wednesday,
    };
    assert!(!manager.must_ring(&wednesday));
}

#[test]
fn must_ring_disabled_never_fires() {
    let mut manager = AlarmManager::default();
    // all slots are disabled by default
    assert!(!manager.must_ring(&monday_0725(0)));
    let noon = DateTime {
        year: 2018,
        month: 10,
        day: 15,
        hour: 12,
        min: 0,
        sec: 0,
        day_of_week: DayOfWeek::Monday,
    };
    assert!(!manager.must_ring(&noon));
}

#[test]
fn one_time_self_disarm() {
    let mut manager = AlarmManager::default();
    manager.alarms[3].is_enable = true;
    manager.alarms[3].set_hour(7);
    manager.alarms[3].set_min(25);
    manager.alarms[3].mode = Mode::empty();
    manager.alarms[3].mode.insert_one_time();

    let now = monday_0725(0);
    assert!(manager.must_ring(&now));
    assert!(!manager.alarms[3].is_enable);
    // the identical instant again: disarmed, so silent
    assert!(!manager.must_ring(&now));
    // and it offers no further candidate
    assert_eq!(manager.next_ring(&now), None);
}

#[test]
fn empty_mode_offers_no_candidate() {
    let mut alarm = Alarm::default();
    alarm.is_enable = true;
    alarm.mode = Mode::empty();
    let now = monday_0725(0);
    assert_eq!(alarm.next_ring(&now), None);
    assert!(!alarm.must_ring(&now));
}

#[test]
fn next_ring_today_still_ahead() {
    let mut manager = AlarmManager::default();
    manager.alarms[0].is_enable = true;
    manager.alarms[0].set_hour(23);
    manager.alarms[0].set_min(30);
    manager.alarms[0].mode = mode_of(&[DayOfWeek::Monday]);
    let now = monday_0725(0);
    assert_eq!(manager.next_ring(&now), Some((DayOfWeek::Monday, 23, 30)));
}

#[test]
fn next_ring_passed_today_rolls_a_week() {
    let mut manager = AlarmManager::default();
    manager.alarms[0].is_enable = true;
    manager.alarms[0].set_hour(7);
    manager.alarms[0].set_min(25);
    manager.alarms[0].mode = mode_of(&[DayOfWeek::Monday]);
    // queried exactly at the alarm's own minute: next week, not now
    let now = monday_0725(0);
    assert_eq!(manager.next_ring(&now), Some((DayOfWeek::Monday, 7, 25)));
    // the tie-break metric puts that candidate a full week away, so a
    // later alarm tomorrow wins over it
    manager.alarms[1].is_enable = true;
    manager.alarms[1].set_hour(6);
    manager.alarms[1].set_min(0);
    manager.alarms[1].mode = mode_of(&[DayOfWeek::Tuesday]);
    assert_eq!(manager.next_ring(&now), Some((DayOfWeek::Tuesday, 6, 0)));
}

#[test]
fn codec_round_trip() {
    let mut a = Alarm::default();
    a.is_enable = true;
    a.set_hour(7);
    a.set_min(25);
    a.mode = mode_of(&[DayOfWeek::Monday, DayOfWeek::Sunday]);
    assert_eq!(Alarm::try_from(a.as_u32()), Some(a));

    let d = Alarm::default();
    assert_eq!(Alarm::try_from(d.as_u32()), Some(d));
}

#[test]
fn codec_layout() {
    let mut a = Alarm::default();
    a.is_enable = true;
    a.set_hour(0x07);
    a.set_min(0x19);
    a.mode = Mode::empty();
    a.mode.insert_dow(DayOfWeek::Monday);
    // marker and enabled flag in the top byte, then minute, hour, bits
    assert_eq!(a.as_u32(), 0x8119_0701);
    a.is_enable = false;
    assert_eq!(a.as_u32(), 0x8019_0701);
}

#[test]
fn codec_rejects_foreign_words() {
    // a cleared backup register
    assert_eq!(Alarm::try_from(0), None);
    // missing marker
    assert_eq!(Alarm::try_from(0x0019_0701), None);
    // hour out of range
    assert_eq!(Alarm::try_from(0x8119_1801), None);
    // minute out of range
    assert_eq!(Alarm::try_from(0x813C_0701), None);
}
