//! The screen state machine: the menu, the clock editor, the alarm list
//! and the nested alarm editor. Every transition is a total function of
//! the current screen and the input event.

use crate::alarm::{dow_mask, Alarm, AlarmManager, Mode};
use crate::datetime::{DateTime, DayOfWeek};
use crate::frame::{fv, DrawPrimitive, PrimV};
use crate::text::spec_alarm_text;
use crate::ui::{cmd_list, Cmd};
use vstd::prelude::*;

verus! {

/// The active top-level screen.
#[derive(Debug, Copy, Clone, PartialEq, Eq)]
pub enum Screen {
    Clock,
    Menu(MenuElt),
    SetClock(EditDateTime),
    ManageAlarms(usize),
    ManageAlarm(ManageAlarm),
}

impl Screen {
    pub open spec fn wf(self) -> bool {
        match self {
            Screen::Clock => true,
            Screen::Menu(_) => true,
            Screen::SetClock(e) => e.datetime.wf(),
            Screen::ManageAlarms(i) => i < 5,
            Screen::ManageAlarm(ma) => ma.wf(),
        }
    }
}

#[derive(Debug, Copy, Clone, PartialEq, Eq, Structural)]
pub enum MenuElt {
    Clock,
    SetClock,
    ManageAlarms,
}

pub open spec fn spec_menu_next(e: MenuElt) -> MenuElt {
    match e {
        MenuElt::Clock => MenuElt::SetClock,
        MenuElt::SetClock => MenuElt::ManageAlarms,
        MenuElt::ManageAlarms => MenuElt::Clock,
    }
}

pub open spec fn spec_menu_prev(e: MenuElt) -> MenuElt {
    match e {
        MenuElt::Clock => MenuElt::ManageAlarms,
        MenuElt::SetClock => MenuElt::Clock,
        MenuElt::ManageAlarms => MenuElt::SetClock,
    }
}

pub open spec fn spec_menu_index(e: MenuElt) -> int {
    match e {
        MenuElt::Clock => 0,
        MenuElt::SetClock => 1,
        MenuElt::ManageAlarms => 2,
    }
}

/// The three entries of the main menu.
pub open spec fn spec_menu_elt_items() -> Seq<Seq<char>> {
    seq!["Main screen"@, "Set clock"@, "Manage alarms"@]
}

impl MenuElt {
    pub fn next(&mut self)
        ensures
            *final(self) == spec_menu_next(*old(self)),
    {
        *self = match *self {
            MenuElt::Clock => MenuElt::SetClock,
            MenuElt::SetClock => MenuElt::ManageAlarms,
            MenuElt::ManageAlarms => MenuElt::Clock,
        };
    }

    pub fn prev(&mut self)
        ensures
            *final(self) == spec_menu_prev(*old(self)),
    {
        *self = match *self {
            MenuElt::Clock => MenuElt::ManageAlarms,
            MenuElt::SetClock => MenuElt::Clock,
            MenuElt::ManageAlarms => MenuElt::SetClock,
        };
    }

    pub fn cancel(&mut self) -> (s: Screen)
        ensures
            s == Screen::Clock,
            *final(self) == *old(self),
    {
        Screen::Clock
    }

    pub fn items(self) -> (v: Vec<String>)
        ensures
            v@.map_values(|s: String| s@) == spec_menu_elt_items(),
    {
        let mut v: Vec<String> = Vec::new();
        v.push(String::from_str("Main screen"));
        v.push(String::from_str("Set clock"));
        v.push(String::from_str("Manage alarms"));
        proof {
            assert(v@.map_values(|s: String| s@) =~= spec_menu_elt_items());
        }
        v
    }

    pub fn index(self) -> (i: usize)
        ensures
            i == spec_menu_index(self),
    {
        match self {
            MenuElt::Clock => 0,
            MenuElt::SetClock => 1,
            MenuElt::ManageAlarms => 2,
        }
    }
}

#[derive(Debug, Copy, Clone, PartialEq, Eq, Structural)]
pub enum EditDateTimeState {
    Year,
    Month,
    Day,
    Hour,
    Min,
}

/// The in-progress clock edit: the value being built and the field the
/// cursor is on.
#[derive(Debug, Copy, Clone, PartialEq, Eq, Structural)]
pub struct EditDateTime {
    pub datetime: DateTime,
    pub state: EditDateTimeState,
}

/// Step the field under the cursor up, with its wraparound: the year
/// wraps from 2105 back to 1970, the month 12 to 1, the day 31 to 1 (the
/// month's true length is not consulted), the hour 23 to 0, the minute
/// 59 to 0.
pub open spec fn spec_edit_next(e: EditDateTime) -> EditDateTime {
    let dt = e.datetime;
    match e.state {
        EditDateTimeState::Year => EditDateTime {
            datetime: DateTime {
                year: if dt.year + 1 > 2105 {
                    1970
                } else {
                    (dt.year + 1) as u16
                },
                ..dt
            },
            ..e
        },
        EditDateTimeState::Month => EditDateTime {
            datetime: DateTime { month: (dt.month % 12 + 1) as u8, ..dt },
            ..e
        },
        EditDateTimeState::Day => EditDateTime {
            datetime: DateTime { day: (dt.day % 31 + 1) as u8, ..dt },
            ..e
        },
        EditDateTimeState::Hour => EditDateTime {
            datetime: DateTime { hour: ((dt.hour + 1) % 24) as u8, ..dt },
            ..e
        },
        EditDateTimeState::Min => EditDateTime {
            datetime: DateTime { min: ((dt.min + 1) % 60) as u8, ..dt },
            ..e
        },
    }
}

/// Step the field under the cursor down, with the same wraparounds.
pub open spec fn spec_edit_prev(e: EditDateTime) -> EditDateTime {
    let dt = e.datetime;
    match e.state {
        EditDateTimeState::Year => EditDateTime {
            datetime: DateTime {
                year: if dt.year - 1 < 1970 {
                    2105
                } else {
                    (dt.year - 1) as u16
                },
                ..dt
            },
            ..e
        },
        EditDateTimeState::Month => EditDateTime {
            datetime: DateTime { month: ((dt.month + 12 - 2) % 12 + 1) as u8, ..dt },
            ..e
        },
        EditDateTimeState::Day => EditDateTime {
            datetime: DateTime { day: ((dt.day + 31 - 2) % 31 + 1) as u8, ..dt },
            ..e
        },
        EditDateTimeState::Hour => EditDateTime {
            datetime: DateTime { hour: ((dt.hour + 24 - 1) % 24) as u8, ..dt },
            ..e
        },
        EditDateTimeState::Min => EditDateTime {
            datetime: DateTime { min: ((dt.min + 60 - 1) % 60) as u8, ..dt },
            ..e
        },
    }
}

/// Step the cursor back one field, or leave to the menu from the first.
pub open spec fn spec_edit_cancel(e: EditDateTime) -> Screen {
    match e.state {
        EditDateTimeState::Year => Screen::Menu(MenuElt::SetClock),
        EditDateTimeState::Month => Screen::SetClock(
            EditDateTime { state: EditDateTimeState::Year, ..e },
        ),
        EditDateTimeState::Day => Screen::SetClock(
            EditDateTime { state: EditDateTimeState::Month, ..e },
        ),
        EditDateTimeState::Hour => Screen::SetClock(
            EditDateTime { state: EditDateTimeState::Day, ..e },
        ),
        EditDateTimeState::Min => Screen::SetClock(
            EditDateTime { state: EditDateTimeState::Hour, ..e },
        ),
    }
}

/// Advance the cursor; on the last field, commit the edited value.
pub open spec fn spec_edit_ok(e: EditDateTime) -> (EditDateTime, Option<DateTime>) {
    match e.state {
        EditDateTimeState::Year => (EditDateTime { state: EditDateTimeState::Month, ..e }, None),
        EditDateTimeState::Month => (EditDateTime { state: EditDateTimeState::Day, ..e }, None),
        EditDateTimeState::Day => (EditDateTime { state: EditDateTimeState::Hour, ..e }, None),
        EditDateTimeState::Hour => (EditDateTime { state: EditDateTimeState::Min, ..e }, None),
        EditDateTimeState::Min => (e, Some(e.datetime)),
    }
}

pub open spec fn spec_edit_label(s: EditDateTimeState) -> Seq<char> {
    match s {
        EditDateTimeState::Year => "Set year"@,
        EditDateTimeState::Month => "Set month"@,
        EditDateTimeState::Day => "Set day"@,
        EditDateTimeState::Hour => "Set hour"@,
        EditDateTimeState::Min => "Set minute"@,
    }
}

impl EditDateTime {
    pub fn new(datetime: DateTime) -> (e: EditDateTime)
        ensures
            e.datetime == datetime,
            e.state == EditDateTimeState::Year,
    {
        EditDateTime { datetime, state: EditDateTimeState::Year }
    }

    pub fn next(&mut self)
        requires
            old(self).datetime.wf(),
        ensures
            *final(self) == spec_edit_next(*old(self)),
            final(self).datetime.wf(),
    {
        match self.state {
            EditDateTimeState::Year => {
                self.datetime.year = self.datetime.year + 1;
                if self.datetime.year > 2105 {
                    self.datetime.year = 1970;
                }
            },
            EditDateTimeState::Month => {
                self.datetime.month = self.datetime.month % 12 + 1;
            },
            EditDateTimeState::Day => {
                self.datetime.day = self.datetime.day % 31 + 1;
            },
            EditDateTimeState::Hour => {
                self.datetime.hour = (self.datetime.hour + 1) % 24;
            },
            EditDateTimeState::Min => {
                self.datetime.min = (self.datetime.min + 1) % 60;
            },
        }
    }

    pub fn prev(&mut self)
        requires
            old(self).datetime.wf(),
        ensures
            *final(self) == spec_edit_prev(*old(self)),
            final(self).datetime.wf(),
    {
        match self.state {
            EditDateTimeState::Year => {
                self.datetime.year = self.datetime.year - 1;
                if self.datetime.year < 1970 {
                    self.datetime.year = 2105;
                }
            },
            EditDateTimeState::Month => {
                self.datetime.month = (self.datetime.month + 12 - 2) % 12 + 1;
            },
            EditDateTimeState::Day => {
                self.datetime.day = (self.datetime.day + 31 - 2) % 31 + 1;
            },
            EditDateTimeState::Hour => {
                self.datetime.hour = (self.datetime.hour + 24 - 1) % 24;
            },
            EditDateTimeState::Min => {
                self.datetime.min = (self.datetime.min + 60 - 1) % 60;
            },
        }
    }

    pub fn cancel(&mut self) -> (s: Screen)
        ensures
            s == spec_edit_cancel(*old(self)),
    {
        match self.state {
            EditDateTimeState::Year => {
                return Screen::Menu(MenuElt::SetClock);
            },
            EditDateTimeState::Month => self.state = EditDateTimeState::Year,
            EditDateTimeState::Day => self.state = EditDateTimeState::Month,
            EditDateTimeState::Hour => self.state = EditDateTimeState::Day,
            EditDateTimeState::Min => self.state = EditDateTimeState::Hour,
        }
        Screen::SetClock(*self)
    }

    pub fn ok(&mut self) -> (r: Option<DateTime>)
        ensures
            *final(self) == spec_edit_ok(*old(self)).0,
            r == spec_edit_ok(*old(self)).1,
    {
        match self.state {
            EditDateTimeState::Year => self.state = EditDateTimeState::Month,
            EditDateTimeState::Month => self.state = EditDateTimeState::Day,
            EditDateTimeState::Day => self.state = EditDateTimeState::Hour,
            EditDateTimeState::Hour => self.state = EditDateTimeState::Min,
            EditDateTimeState::Min => {
                return Some(self.datetime);
            },
        }
        None
    }

    pub fn as_edit_str(&self) -> (s: &'static str)
        ensures
            s@ == spec_edit_label(self.state),
    {
        match self.state {
            EditDateTimeState::Year => "Set year",
            EditDateTimeState::Month => "Set month",
            EditDateTimeState::Day => "Set day",
            EditDateTimeState::Hour => "Set hour",
            EditDateTimeState::Min => "Set minute",
        }
    }
}

#[derive(Debug, Copy, Clone, PartialEq, Eq, Structural)]
pub enum ManageAlarmMainState {
    ToggleEnable,
    SetTime,
    ToggleOneTime,
    ManageRepeat,
    Quit,
}

#[derive(Debug, Copy, Clone, PartialEq, Eq, Structural)]
pub enum ManageAlarmManageRepeatState {
    Monday,
    Tuesday,
    Wednesday,
    Thursday,
    Friday,
    Saturday,
    Sunday,
    Quit,
}

#[derive(Debug, Copy, Clone, PartialEq, Eq, Structural)]
pub enum ManageAlarmState {
    Main(ManageAlarmMainState),
    SetHour,
    SetMin,
    ManageRepeat(ManageAlarmManageRepeatState),
}

/// The in-progress alarm edit: the slot index, the edited copy of the
/// alarm, and the editor's own nested state.
#[derive(Debug, Copy, Clone, PartialEq, Eq, Structural)]
pub struct ManageAlarm {
    pub id: usize,
    pub alarm: Alarm,
    pub state: ManageAlarmState,
}

pub open spec fn spec_main_next(s: ManageAlarmMainState) -> ManageAlarmMainState {
    match s {
        ManageAlarmMainState::ToggleEnable => ManageAlarmMainState::SetTime,
        ManageAlarmMainState::SetTime => ManageAlarmMainState::ToggleOneTime,
        ManageAlarmMainState::ToggleOneTime => ManageAlarmMainState::ManageRepeat,
        ManageAlarmMainState::ManageRepeat => ManageAlarmMainState::Quit,
        ManageAlarmMainState::Quit => ManageAlarmMainState::ToggleEnable,
    }
}

pub open spec fn spec_main_prev(s: ManageAlarmMainState) -> ManageAlarmMainState {
    match s {
        ManageAlarmMainState::ToggleEnable => ManageAlarmMainState::Quit,
        ManageAlarmMainState::SetTime => ManageAlarmMainState::ToggleEnable,
        ManageAlarmMainState::ToggleOneTime => ManageAlarmMainState::SetTime,
        ManageAlarmMainState::ManageRepeat => ManageAlarmMainState::ToggleOneTime,
        ManageAlarmMainState::Quit => ManageAlarmMainState::ManageRepeat,
    }
}

pub open spec fn spec_main_index(s: ManageAlarmMainState) -> int {
    match s {
        ManageAlarmMainState::ToggleEnable => 0,
        ManageAlarmMainState::SetTime => 1,
        ManageAlarmMainState::ToggleOneTime => 2,
        ManageAlarmMainState::ManageRepeat => 3,
        ManageAlarmMainState::Quit => 4,
    }
}

pub open spec fn spec_repeat_next(s: ManageAlarmManageRepeatState) -> ManageAlarmManageRepeatState {
    match s {
        ManageAlarmManageRepeatState::Monday => ManageAlarmManageRepeatState::Tuesday,
        ManageAlarmManageRepeatState::Tuesday => ManageAlarmManageRepeatState::Wednesday,
        ManageAlarmManageRepeatState::Wednesday => ManageAlarmManageRepeatState::Thursday,
        ManageAlarmManageRepeatState::Thursday => ManageAlarmManageRepeatState::Friday,
        ManageAlarmManageRepeatState::Friday => ManageAlarmManageRepeatState::Saturday,
        ManageAlarmManageRepeatState::Saturday => ManageAlarmManageRepeatState::Sunday,
        ManageAlarmManageRepeatState::Sunday => ManageAlarmManageRepeatState::Quit,
        ManageAlarmManageRepeatState::Quit => ManageAlarmManageRepeatState::Monday,
    }
}

pub open spec fn spec_repeat_prev(s: ManageAlarmManageRepeatState) -> ManageAlarmManageRepeatState {
    match s {
        ManageAlarmManageRepeatState::Monday => ManageAlarmManageRepeatState::Quit,
        ManageAlarmManageRepeatState::Tuesday => ManageAlarmManageRepeatState::Monday,
        ManageAlarmManageRepeatState::Wednesday => ManageAlarmManageRepeatState::Tuesday,
        ManageAlarmManageRepeatState::Thursday => ManageAlarmManageRepeatState::Wednesday,
        ManageAlarmManageRepeatState::Friday => ManageAlarmManageRepeatState::Thursday,
        ManageAlarmManageRepeatState::Saturday => ManageAlarmManageRepeatState::Friday,
        ManageAlarmManageRepeatState::Sunday => ManageAlarmManageRepeatState::Saturday,
        ManageAlarmManageRepeatState::Quit => ManageAlarmManageRepeatState::Sunday,
    }
}

pub open spec fn spec_repeat_index(s: ManageAlarmManageRepeatState) -> int {
    match s {
        ManageAlarmManageRepeatState::Monday => 0,
        ManageAlarmManageRepeatState::Tuesday => 1,
        ManageAlarmManageRepeatState::Wednesday => 2,
        ManageAlarmManageRepeatState::Thursday => 3,
        ManageAlarmManageRepeatState::Friday => 4,
        ManageAlarmManageRepeatState::Saturday => 5,
        ManageAlarmManageRepeatState::Sunday => 6,
        ManageAlarmManageRepeatState::Quit => 7,
    }
}

pub open spec fn spec_repeat_day(s: ManageAlarmManageRepeatState) -> DayOfWeek {
    match s {
        ManageAlarmManageRepeatState::Monday => DayOfWeek::Monday,
        ManageAlarmManageRepeatState::Tuesday => DayOfWeek::Tuesday,
        ManageAlarmManageRepeatState::Wednesday => DayOfWeek::Wednesday,
        ManageAlarmManageRepeatState::Thursday => DayOfWeek::Thursday,
        ManageAlarmManageRepeatState::Friday => DayOfWeek::Friday,
        ManageAlarmManageRepeatState::Saturday => DayOfWeek::Saturday,
        ManageAlarmManageRepeatState::Sunday => DayOfWeek::Sunday,
        ManageAlarmManageRepeatState::Quit => DayOfWeek::Monday,
    }
}

/// The fresh editor over slot `id`: a copy of the stored alarm, with the
/// cursor on the first item of the main list.
pub open spec fn spec_manage_new(manager: AlarmManager, id: int) -> ManageAlarm {
    ManageAlarm {
        id: id as usize,
        alarm: manager.alarms@[id],
        state: ManageAlarmState::Main(ManageAlarmMainState::ToggleEnable),
    }
}

/// Ok inside the main list: toggle in place, enter a sub-editor, or, on
/// the last item, persist the edited alarm and leave to the clock.
pub open spec fn spec_main_ok(ma: ManageAlarm, st: ManageAlarmMainState) -> (Screen, Seq<Cmd>) {
    match st {
        ManageAlarmMainState::ToggleEnable => (
            Screen::ManageAlarm(
                ManageAlarm { alarm: Alarm { is_enable: !ma.alarm.is_enable, ..ma.alarm }, ..ma },
            ),
            Seq::<Cmd>::empty(),
        ),
        ManageAlarmMainState::SetTime => (
            Screen::ManageAlarm(ManageAlarm { state: ManageAlarmState::SetHour, ..ma }),
            Seq::<Cmd>::empty(),
        ),
        ManageAlarmMainState::ToggleOneTime => (
            Screen::ManageAlarm(
                ManageAlarm {
                    alarm: Alarm {
                        mode: Mode { bits: ma.alarm.mode.bits ^ 0x80 },
                        ..ma.alarm
                    },
                    ..ma
                },
            ),
            Seq::<Cmd>::empty(),
        ),
        ManageAlarmMainState::ManageRepeat => (
            Screen::ManageAlarm(
                ManageAlarm {
                    state: ManageAlarmState::ManageRepeat(ManageAlarmManageRepeatState::Monday),
                    ..ma
                },
            ),
            Seq::<Cmd>::empty(),
        ),
        ManageAlarmMainState::Quit => (Screen::Clock, seq![Cmd::UpdateAlarm(ma.alarm, ma.id)]),
    }
}

/// Ok inside the repeat list: toggle the weekday under the cursor, or
/// return to the main list from the last item.
pub open spec fn spec_repeat_ok(ma: ManageAlarm, st: ManageAlarmManageRepeatState) -> Screen {
    match st {
        ManageAlarmManageRepeatState::Quit => Screen::ManageAlarm(
            ManageAlarm {
                state: ManageAlarmState::Main(ManageAlarmMainState::ManageRepeat),
                ..ma
            },
        ),
        _ => Screen::ManageAlarm(
            ManageAlarm {
                alarm: Alarm {
                    mode: Mode { bits: ma.alarm.mode.bits ^ dow_mask(spec_repeat_day(st)) },
                    ..ma.alarm
                },
                ..ma
            },
        ),
    }
}

pub open spec fn spec_manage_ok(ma: ManageAlarm) -> (Screen, Seq<Cmd>) {
    match ma.state {
        ManageAlarmState::Main(st) => spec_main_ok(ma, st),
        ManageAlarmState::SetHour => (
            Screen::ManageAlarm(ManageAlarm { state: ManageAlarmState::SetMin, ..ma }),
            Seq::<Cmd>::empty(),
        ),
        ManageAlarmState::SetMin => (
            Screen::ManageAlarm(
                ManageAlarm {
                    state: ManageAlarmState::Main(ManageAlarmMainState::SetTime),
                    ..ma
                },
            ),
            Seq::<Cmd>::empty(),
        ),
        ManageAlarmState::ManageRepeat(st) => (spec_repeat_ok(ma, st), Seq::<Cmd>::empty()),
    }
}

/// Plus: cycle the cursor, or step the field being edited upward (the
/// hour by one, the minute in steps of five).
pub open spec fn spec_manage_next(ma: ManageAlarm) -> ManageAlarm {
    match ma.state {
        ManageAlarmState::Main(st) => ManageAlarm {
            state: ManageAlarmState::Main(spec_main_next(st)),
            ..ma
        },
        ManageAlarmState::SetHour => ManageAlarm {
            alarm: Alarm { hour: ((ma.alarm.hour + 1) % 24) as u8, ..ma.alarm },
            ..ma
        },
        ManageAlarmState::SetMin => ManageAlarm {
            alarm: Alarm { min: ((ma.alarm.min + 5) % 60) as u8, ..ma.alarm },
            ..ma
        },
        ManageAlarmState::ManageRepeat(st) => ManageAlarm {
            state: ManageAlarmState::ManageRepeat(spec_repeat_next(st)),
            ..ma
        },
    }
}

/// Minus: the same, downward.
pub open spec fn spec_manage_prev(ma: ManageAlarm) -> ManageAlarm {
    match ma.state {
        ManageAlarmState::Main(st) => ManageAlarm {
            state: ManageAlarmState::Main(spec_main_prev(st)),
            ..ma
        },
        ManageAlarmState::SetHour => ManageAlarm {
            alarm: Alarm { hour: ((ma.alarm.hour + 24 - 1) % 24) as u8, ..ma.alarm },
            ..ma
        },
        ManageAlarmState::SetMin => ManageAlarm {
            alarm: Alarm { min: ((ma.alarm.min + 60 - 5) % 60) as u8, ..ma.alarm },
            ..ma
        },
        ManageAlarmState::ManageRepeat(st) => ManageAlarm {
            state: ManageAlarmState::ManageRepeat(spec_repeat_prev(st)),
            ..ma
        },
    }
}

/// Cancel: back out one level; from the main list, abandon the edit and
/// return to the alarm list.
pub open spec fn spec_manage_cancel(ma: ManageAlarm) -> Screen {
    match ma.state {
        ManageAlarmState::Main(_) => Screen::ManageAlarms(ma.id),
        ManageAlarmState::SetHour => Screen::ManageAlarm(
            ManageAlarm {
                state: ManageAlarmState::Main(ManageAlarmMainState::SetTime),
                ..ma
            },
        ),
        ManageAlarmState::SetMin => Screen::ManageAlarm(
            ManageAlarm { state: ManageAlarmState::SetHour, ..ma },
        ),
        ManageAlarmState::ManageRepeat(_) => Screen::ManageAlarm(
            ManageAlarm {
                state: ManageAlarmState::Main(ManageAlarmMainState::ManageRepeat),
                ..ma
            },
        ),
    }
}

/// The alarm editor's title line.
pub open spec fn spec_manage_title(a: Alarm) -> Seq<char> {
    "Edit: "@ + spec_alarm_text(a)
}

/// The five entries of the editor's main list, the toggles worded for
/// the alarm's current state.
pub open spec fn spec_manage_main_items(a: Alarm) -> Seq<Seq<char>> {
    seq![
        if a.is_enable {
            "Disable"@
        } else {
            "Enable"@
        },
        "Set Time"@,
        if a.mode.spec_one_time() {
            "Repeat"@
        } else {
            "One time"@
        },
        "Manage repeat"@,
        "Save and quit"@,
    ]
}

/// The eight entries of the repeat list: one toggle per weekday, worded
/// for whether the day is currently selected, and a way back.
pub open spec fn spec_manage_repeat_items(m: Mode) -> Seq<Seq<char>> {
    seq![
        if m.spec_contains_dow(DayOfWeek::Monday) {
            "Remove Monday"@
        } else {
            "Add Monday"@
        },
        if m.spec_contains_dow(DayOfWeek::Tuesday) {
            "Remove Tuesday"@
        } else {
            "Add Tuesday"@
        },
        if m.spec_contains_dow(DayOfWeek::Wednesday) {
            "Remove Wednesday"@
        } else {
            "Add Wednesday"@
        },
        if m.spec_contains_dow(DayOfWeek::Thursday) {
            "Remove Thursday"@
        } else {
            "Add Thursday"@
        },
        if m.spec_contains_dow(DayOfWeek::Friday) {
            "Remove Friday"@
        } else {
            "Add Friday"@
        },
        if m.spec_contains_dow(DayOfWeek::Saturday) {
            "Remove Saturday"@
        } else {
            "Add Saturday"@
        },
        if m.spec_contains_dow(DayOfWeek::Sunday) {
            "Remove Sunday"@
        } else {
            "Add Sunday"@
        },
        "Back"@,
    ]
}

/// What the alarm editor shows in each of its nested states.
pub open spec fn spec_manage_render(ma: ManageAlarm) -> Seq<PrimV> {
    match ma.state {
        ManageAlarmState::Main(st) => crate::ui::menu::spec_menu(
            spec_manage_title(ma.alarm),
            spec_manage_main_items(ma.alarm),
            spec_main_index(st),
        ),
        ManageAlarmState::SetHour => crate::ui::menu::spec_menu(
            spec_manage_title(ma.alarm),
            seq!["Set hour"@],
            0,
        ),
        ManageAlarmState::SetMin => crate::ui::menu::spec_menu(
            spec_manage_title(ma.alarm),
            seq!["Set minute"@],
            0,
        ),
        ManageAlarmState::ManageRepeat(st) => crate::ui::menu::spec_menu(
            spec_manage_title(ma.alarm),
            spec_manage_repeat_items(ma.alarm.mode),
            spec_repeat_index(st),
        ),
    }
}

fn repeat_item(m: Mode, d: DayOfWeek, rm: &'static str, add: &'static str) -> (s: String)
    ensures
        s@ == if m.spec_contains_dow(d) {
            rm@
        } else {
            add@
        },
{
    if m.contains_dow(d) {
        String::from_str(rm)
    } else {
        String::from_str(add)
    }
}

impl ManageAlarm {
    pub open spec fn wf(self) -> bool {
        self.id < 5 && self.alarm.wf()
    }

    /// Draw the editor: the title describing the edited alarm, then the
    /// list of the active nested state.
    pub fn render(&self, frame: &mut Vec<DrawPrimitive>)
        ensures
            fv(final(frame)@) == fv(old(frame)@) + spec_manage_render(*self),
    {
        let mut title = String::from_str("Edit: ");
        title.append(self.alarm.to_text().as_str());
        match self.state {
            ManageAlarmState::Main(st) => {
                let mut v: Vec<String> = Vec::new();
                if self.alarm.is_enable {
                    v.push(String::from_str("Disable"));
                } else {
                    v.push(String::from_str("Enable"));
                }
                v.push(String::from_str("Set Time"));
                if self.alarm.mode.is_one_time() {
                    v.push(String::from_str("Repeat"));
                } else {
                    v.push(String::from_str("One time"));
                }
                v.push(String::from_str("Manage repeat"));
                v.push(String::from_str("Save and quit"));
                proof {
                    assert(v@.map_values(|s: String| s@) =~= spec_manage_main_items(self.alarm));
                }
                let sel: usize = match st {
                    ManageAlarmMainState::ToggleEnable => 0,
                    ManageAlarmMainState::SetTime => 1,
                    ManageAlarmMainState::ToggleOneTime => 2,
                    ManageAlarmMainState::ManageRepeat => 3,
                    ManageAlarmMainState::Quit => 4,
                };
                crate::ui::menu::render(title, &v, sel, frame);
            },
            ManageAlarmState::SetHour => {
                let mut v: Vec<String> = Vec::new();
                v.push(String::from_str("Set hour"));
                proof {
                    assert(v@.map_values(|s: String| s@) =~= seq!["Set hour"@]);
                }
                crate::ui::menu::render(title, &v, 0, frame);
            },
            ManageAlarmState::SetMin => {
                let mut v: Vec<String> = Vec::new();
                v.push(String::from_str("Set minute"));
                proof {
                    assert(v@.map_values(|s: String| s@) =~= seq!["Set minute"@]);
                }
                crate::ui::menu::render(title, &v, 0, frame);
            },
            ManageAlarmState::ManageRepeat(st) => {
                let m = self.alarm.mode;
                let mut v: Vec<String> = Vec::new();
                v.push(repeat_item(m, DayOfWeek::Monday, "Remove Monday", "Add Monday"));
                v.push(repeat_item(m, DayOfWeek::Tuesday, "Remove Tuesday", "Add Tuesday"));
                v.push(repeat_item(m, DayOfWeek::Wednesday, "Remove Wednesday", "Add Wednesday"));
                v.push(repeat_item(m, DayOfWeek::Thursday, "Remove Thursday", "Add Thursday"));
                v.push(repeat_item(m, DayOfWeek::Friday, "Remove Friday", "Add Friday"));
                v.push(repeat_item(m, DayOfWeek::Saturday, "Remove Saturday", "Add Saturday"));
                v.push(repeat_item(m, DayOfWeek::Sunday, "Remove Sunday", "Add Sunday"));
                v.push(String::from_str("Back"));
                proof {
                    assert(v@.map_values(|s: String| s@) =~= spec_manage_repeat_items(m));
                }
                let sel: usize = match st {
                    ManageAlarmManageRepeatState::Monday => 0,
                    ManageAlarmManageRepeatState::Tuesday => 1,
                    ManageAlarmManageRepeatState::Wednesday => 2,
                    ManageAlarmManageRepeatState::Thursday => 3,
                    ManageAlarmManageRepeatState::Friday => 4,
                    ManageAlarmManageRepeatState::Saturday => 5,
                    ManageAlarmManageRepeatState::Sunday => 6,
                    ManageAlarmManageRepeatState::Quit => 7,
                };
                crate::ui::menu::render(title, &v, sel, frame);
            },
        }
    }

    pub fn new(manager: &AlarmManager, id: usize) -> (m: ManageAlarm)
        requires
            id < 5,
            manager.wf(),
        ensures
            m == spec_manage_new(*manager, id as int),
            m.wf(),
    {
        ManageAlarm {
            id,
            alarm: manager.alarms[id],
            state: ManageAlarmState::Main(ManageAlarmMainState::ToggleEnable),
        }
    }

    pub fn ok(&self, cmds: &mut heapless::Vec<Cmd, 4>) -> (s: Screen)
        requires
            self.wf(),
            cmd_list(*old(cmds)).len() < 4,
        ensures
            s == spec_manage_ok(*self).0,
            cmd_list(*final(cmds)) == cmd_list(*old(cmds)) + spec_manage_ok(*self).1,
    {
        match self.state {
            ManageAlarmState::Main(st) => match st {
                ManageAlarmMainState::ToggleEnable => {
                    let mut ma = *self;
                    ma.alarm.is_enable = !ma.alarm.is_enable;
                    Screen::ManageAlarm(ma)
                },
                ManageAlarmMainState::SetTime => {
                    let mut ma = *self;
                    ma.state = ManageAlarmState::SetHour;
                    Screen::ManageAlarm(ma)
                },
                ManageAlarmMainState::ToggleOneTime => {
                    let mut ma = *self;
                    ma.alarm.mode.toggle_one_time();
                    Screen::ManageAlarm(ma)
                },
                ManageAlarmMainState::ManageRepeat => {
                    let mut ma = *self;
                    ma.state = ManageAlarmState::ManageRepeat(
                        ManageAlarmManageRepeatState::Monday,
                    );
                    Screen::ManageAlarm(ma)
                },
                ManageAlarmMainState::Quit => {
                    let _ = crate::ui::cmd_list_push(cmds, Cmd::UpdateAlarm(self.alarm, self.id));
                    Screen::Clock
                },
            },
            ManageAlarmState::SetHour => {
                let mut ma = *self;
                ma.state = ManageAlarmState::SetMin;
                Screen::ManageAlarm(ma)
            },
            ManageAlarmState::SetMin => {
                let mut ma = *self;
                ma.state = ManageAlarmState::Main(ManageAlarmMainState::SetTime);
                Screen::ManageAlarm(ma)
            },
            ManageAlarmState::ManageRepeat(st) => match st {
                ManageAlarmManageRepeatState::Quit => {
                    let mut ma = *self;
                    ma.state = ManageAlarmState::Main(ManageAlarmMainState::ManageRepeat);
                    Screen::ManageAlarm(ma)
                },
                _ => {
                    let mut ma = *self;
                    let day = match st {
                        ManageAlarmManageRepeatState::Monday => DayOfWeek::Monday,
                        ManageAlarmManageRepeatState::Tuesday => DayOfWeek::Tuesday,
                        ManageAlarmManageRepeatState::Wednesday => DayOfWeek::Wednesday,
                        ManageAlarmManageRepeatState::Thursday => DayOfWeek::Thursday,
                        ManageAlarmManageRepeatState::Friday => DayOfWeek::Friday,
                        ManageAlarmManageRepeatState::Saturday => DayOfWeek::Saturday,
                        _ => DayOfWeek::Sunday,
                    };
                    ma.alarm.mode.toggle_dow(day);
                    Screen::ManageAlarm(ma)
                },
            },
        }
    }

    pub fn next(&mut self)
        requires
            old(self).wf(),
        ensures
            *final(self) == spec_manage_next(*old(self)),
            final(self).wf(),
    {
        match self.state {
            ManageAlarmState::Main(st) => {
                self.state = ManageAlarmState::Main(
                    match st {
                        ManageAlarmMainState::ToggleEnable => ManageAlarmMainState::SetTime,
                        ManageAlarmMainState::SetTime => ManageAlarmMainState::ToggleOneTime,
                        ManageAlarmMainState::ToggleOneTime => ManageAlarmMainState::ManageRepeat,
                        ManageAlarmMainState::ManageRepeat => ManageAlarmMainState::Quit,
                        ManageAlarmMainState::Quit => ManageAlarmMainState::ToggleEnable,
                    },
                );
            },
            ManageAlarmState::SetHour => {
                let hour = self.alarm.hour();
                self.alarm.set_hour((hour + 1) % 24);
            },
            ManageAlarmState::SetMin => {
                let min = self.alarm.min();
                self.alarm.set_min((min + 5) % 60);
            },
            ManageAlarmState::ManageRepeat(st) => {
                self.state = ManageAlarmState::ManageRepeat(
                    match st {
                        ManageAlarmManageRepeatState::Monday => ManageAlarmManageRepeatState::Tuesday,
                        ManageAlarmManageRepeatState::Tuesday => ManageAlarmManageRepeatState::Wednesday,
                        ManageAlarmManageRepeatState::Wednesday => ManageAlarmManageRepeatState::Thursday,
                        ManageAlarmManageRepeatState::Thursday => ManageAlarmManageRepeatState::Friday,
                        ManageAlarmManageRepeatState::Friday => ManageAlarmManageRepeatState::Saturday,
                        ManageAlarmManageRepeatState::Saturday => ManageAlarmManageRepeatState::Sunday,
                        ManageAlarmManageRepeatState::Sunday => ManageAlarmManageRepeatState::Quit,
                        ManageAlarmManageRepeatState::Quit => ManageAlarmManageRepeatState::Monday,
                    },
                );
            },
        }
    }

    pub fn prev(&mut self)
        requires
            old(self).wf(),
        ensures
            *final(self) == spec_manage_prev(*old(self)),
            final(self).wf(),
    {
        match self.state {
            ManageAlarmState::Main(st) => {
                self.state = ManageAlarmState::Main(
                    match st {
                        ManageAlarmMainState::ToggleEnable => ManageAlarmMainState::Quit,
                        ManageAlarmMainState::SetTime => ManageAlarmMainState::ToggleEnable,
                        ManageAlarmMainState::ToggleOneTime => ManageAlarmMainState::SetTime,
                        ManageAlarmMainState::ManageRepeat => ManageAlarmMainState::ToggleOneTime,
                        ManageAlarmMainState::Quit => ManageAlarmMainState::ManageRepeat,
                    },
                );
            },
            ManageAlarmState::SetHour => {
                let hour = self.alarm.hour();
                self.alarm.set_hour((hour + 24 - 1) % 24);
            },
            ManageAlarmState::SetMin => {
                let min = self.alarm.min();
                self.alarm.set_min((min + 60 - 5) % 60);
            },
            ManageAlarmState::ManageRepeat(st) => {
                self.state = ManageAlarmState::ManageRepeat(
                    match st {
                        ManageAlarmManageRepeatState::Monday => ManageAlarmManageRepeatState::Quit,
                        ManageAlarmManageRepeatState::Tuesday => ManageAlarmManageRepeatState::Monday,
                        ManageAlarmManageRepeatState::Wednesday => ManageAlarmManageRepeatState::Tuesday,
                        ManageAlarmManageRepeatState::Thursday => ManageAlarmManageRepeatState::Wednesday,
                        ManageAlarmManageRepeatState::Friday => ManageAlarmManageRepeatState::Thursday,
                        ManageAlarmManageRepeatState::Saturday => ManageAlarmManageRepeatState::Friday,
                        ManageAlarmManageRepeatState::Sunday => ManageAlarmManageRepeatState::Saturday,
                        ManageAlarmManageRepeatState::Quit => ManageAlarmManageRepeatState::Sunday,
                    },
                );
            },
        }
    }

    pub fn cancel(&mut self) -> (s: Screen)
        ensures
            s == spec_manage_cancel(*old(self)),
    {
        match self.state {
            ManageAlarmState::Main(_) => Screen::ManageAlarms(self.id),
            ManageAlarmState::SetHour => {
                let mut ma = *self;
                ma.state = ManageAlarmState::Main(ManageAlarmMainState::SetTime);
                Screen::ManageAlarm(ma)
            },
            ManageAlarmState::SetMin => {
                let mut ma = *self;
                ma.state = ManageAlarmState::SetHour;
                Screen::ManageAlarm(ma)
            },
            ManageAlarmState::ManageRepeat(_) => {
                let mut ma = *self;
                ma.state = ManageAlarmState::Main(ManageAlarmMainState::ManageRepeat);
                Screen::ManageAlarm(ma)
            },
        }
    }
}

} // verus!
