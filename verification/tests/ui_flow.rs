use alarm_clock::button::{Button, Event};
use alarm_clock::datetime::{DateTime, DayOfWeek};
use alarm_clock::ui::state::{EditDateTime, EditDateTimeState, MenuElt, Screen};
use alarm_clock::ui::{Cmd, Environment, Model, Msg};

fn sample_time(hour: u8, min: u8, sec: u8) -> DateTime {
    DateTime {
        year: 2018,
        month: 10,
        day: 15,
        hour,
        min,
        sec,
        day_of_week: DayOfWeek::Monday,
    }
}

#[test]
fn menu_navigation_closure() {
    let mut model = Model::init();
    assert!(matches!(model.screen, Screen::Clock));
    let c1 = model.update(Msg::ButtonOk);
    assert!(matches!(model.screen, Screen::Menu(MenuElt::Clock)));
    assert!(c1.iter().all(|c| matches!(c, Cmd::FullUpdate)));
    let c2 = model.update(Msg::ButtonCancel);
    assert!(matches!(model.screen, Screen::Clock));
    assert!(c2.iter().all(|c| matches!(c, Cmd::FullUpdate)));
}

#[test]
fn alarm_edit_round_trip() {
    let mut model = Model::init();
    let originally_enabled = model.alarm_manager.alarms[1].is_enable;
    // navigate: menu, third entry, alarm list, second slot, editor
    model.update(Msg::ButtonOk);
    model.update(Msg::ButtonPlus);
    model.update(Msg::ButtonPlus);
    assert!(matches!(model.screen, Screen::Menu(MenuElt::ManageAlarms)));
    model.update(Msg::ButtonOk);
    assert!(matches!(model.screen, Screen::ManageAlarms(0)));
    model.update(Msg::ButtonPlus);
    assert!(matches!(model.screen, Screen::ManageAlarms(1)));
    let c_enter = model.update(Msg::ButtonOk);
    assert!(c_enter.is_empty());
    // toggle the enabled flag, step back to "Save and quit", confirm
    let c_toggle = model.update(Msg::ButtonOk);
    assert!(c_toggle.is_empty());
    let c_back = model.update(Msg::ButtonMinus);
    assert!(c_back.is_empty());
    let c_quit = model.update(Msg::ButtonOk);
    assert!(matches!(model.screen, Screen::Clock));
    let persists: Vec<&Cmd> = c_quit
        .iter()
        .filter(|c| matches!(c, Cmd::UpdateAlarm(_, _)))
        .collect();
    assert_eq!(persists.len(), 1);
    match persists[0] {
        Cmd::UpdateAlarm(alarm, idx) => {
            assert_eq!(*idx, 1);
            assert_eq!(alarm.is_enable, !originally_enabled);
        }
        _ => unreachable!(),
    }
}

#[test]
fn midnight_forces_redraw() {
    let mut model = Model::init();
    let cmds = model.update(Msg::DateTime(sample_time(0, 0, 0)));
    assert_eq!(cmds.len(), 1);
    assert!(matches!(cmds[0], Cmd::FullUpdate));
    let cmds = model.update(Msg::DateTime(sample_time(0, 0, 1)));
    assert!(cmds.is_empty());
    let cmds = model.update(Msg::DateTime(sample_time(13, 30, 0)));
    assert!(cmds.is_empty());
}

#[test]
fn environment_tracking() {
    let mut model = Model::init();
    model.update(Msg::FailEnvironment);
    model.update(Msg::FailEnvironment);
    assert_eq!(model.nb_fail_environment, 2);
    let reading = Environment {
        pressure: 101_325_00,
        temperature: 2150,
        humidity: 45,
    };
    model.update(Msg::Environment(reading));
    assert_eq!(model.nb_fail_environment, 0);
    assert_eq!(model.env, reading);
}

#[test]
fn set_clock_commit() {
    let mut model = Model::init();
    model.update(Msg::DateTime(sample_time(13, 30, 45)));
    model.update(Msg::ButtonOk); // menu
    model.update(Msg::ButtonPlus); // select "Set clock"
    let cmds = model.update(Msg::ButtonOk); // enter the editor
    assert!(cmds.is_empty());
    match model.screen {
        Screen::SetClock(e) => {
            // seeded from the current time with the seconds zeroed
            assert_eq!(e.datetime, sample_time(13, 30, 0));
            assert_eq!(e.state, EditDateTimeState::Year);
        }
        _ => panic!("expected the clock editor"),
    }
    model.update(Msg::ButtonPlus); // year 2019
    model.update(Msg::ButtonOk); // to month
    model.update(Msg::ButtonOk); // to day
    model.update(Msg::ButtonOk); // to hour
    model.update(Msg::ButtonOk); // to minute
    let cmds = model.update(Msg::ButtonOk); // commit
    assert!(matches!(model.screen, Screen::Clock));
    assert_eq!(cmds.len(), 2);
    match &cmds[0] {
        Cmd::UpdateRtc(dt) => {
            let mut expected = sample_time(13, 30, 0);
            expected.year = 2019;
            assert_eq!(*dt, expected);
        }
        c => panic!("expected a clock update, got {:?}", c),
    }
    assert!(matches!(cmds[1], Cmd::FullUpdate));
}

#[test]
fn set_clock_cancel_steps_back() {
    let mut model = Model::init();
    model.update(Msg::ButtonOk);
    model.update(Msg::ButtonPlus);
    model.update(Msg::ButtonOk);
    model.update(Msg::ButtonOk); // cursor on month
    model.update(Msg::ButtonCancel); // back to year
    match model.screen {
        Screen::SetClock(e) => assert_eq!(e.state, EditDateTimeState::Year),
        _ => panic!("expected the clock editor"),
    }
    model.update(Msg::ButtonCancel); // out to the menu
    assert!(matches!(model.screen, Screen::Menu(MenuElt::SetClock)));
}

#[test]
fn edit_field_wraparounds() {
    let base = sample_time(23, 59, 0);
    let mut e = EditDateTime::new(DateTime { year: 2105, ..base });
    e.next();
    assert_eq!(e.datetime.year, 1970);
    e.prev();
    assert_eq!(e.datetime.year, 2105);

    let mut e = EditDateTime::new(DateTime { day: 31, month: 12, ..base });
    e.ok(); // to month
    e.next();
    assert_eq!(e.datetime.month, 1);
    e.ok(); // to day
    e.next();
    assert_eq!(e.datetime.day, 1);
    e.prev();
    assert_eq!(e.datetime.day, 31);
    e.ok(); // to hour
    e.next();
    assert_eq!(e.datetime.hour, 0);
    e.ok(); // to minute
    e.next();
    assert_eq!(e.datetime.min, 0);
}

#[test]
fn alarm_manager_snapshot_replaced() {
    let mut model = Model::init();
    let mut manager = model.alarm_manager.clone();
    manager.alarms[4].is_enable = true;
    manager.alarms[4].set_hour(6);
    manager.alarms[4].set_min(45);
    let cmds = model.update(Msg::AlarmManager(manager));
    assert!(cmds.is_empty());
    assert!(model.alarm_manager.alarms[4].is_enable);
    assert_eq!(model.alarm_manager.alarms[4].hour(), 6);
    assert_eq!(model.alarm_manager.alarms[4].min(), 45);
}

#[test]
fn button_debounce() {
    let mut b = Button::new();
    // 29 low samples: still nothing
    for _ in 0..29 {
        assert_eq!(b.poll(false), Event::Nothing);
    }
    // the 30th consecutive low sample reports the press
    assert_eq!(b.poll(false), Event::Pressed);
    // held down: nothing further
    assert_eq!(b.poll(false), Event::Nothing);
    // bouncing up resets the release counter
    for _ in 0..20 {
        assert_eq!(b.poll(true), Event::Nothing);
    }
    assert_eq!(b.poll(false), Event::Nothing);
    for _ in 0..29 {
        assert_eq!(b.poll(true), Event::Nothing);
    }
    assert_eq!(b.poll(true), Event::Reseased);
}

#[test]
fn plus_and_minus_cycle_menu() {
    let mut model = Model::init();
    model.update(Msg::ButtonOk);
    assert!(matches!(model.screen, Screen::Menu(MenuElt::Clock)));
    model.update(Msg::ButtonPlus);
    assert!(matches!(model.screen, Screen::Menu(MenuElt::SetClock)));
    model.update(Msg::ButtonPlus);
    assert!(matches!(model.screen, Screen::Menu(MenuElt::ManageAlarms)));
    model.update(Msg::ButtonPlus);
    assert!(matches!(model.screen, Screen::Menu(MenuElt::Clock)));
    model.update(Msg::ButtonMinus);
    assert!(matches!(model.screen, Screen::Menu(MenuElt::ManageAlarms)));
}

#[test]
fn manage_alarms_index_wraps() {
    let mut model = Model::init();
    model.update(Msg::ButtonOk);
    model.update(Msg::ButtonMinus); // menu wraps backward to the alarm list
    model.update(Msg::ButtonOk);
    assert!(matches!(model.screen, Screen::ManageAlarms(0)));
    model.update(Msg::ButtonMinus);
    assert!(matches!(model.screen, Screen::ManageAlarms(4)));
    model.update(Msg::ButtonPlus);
    assert!(matches!(model.screen, Screen::ManageAlarms(0)));
    model.update(Msg::ButtonCancel);
    assert!(matches!(model.screen, Screen::Menu(MenuElt::ManageAlarms)));
}
