//! The user-interface layer: an Elm-style reducer over a presentation
//! model (current time, environment reading, alarm snapshot, active
//! screen) that consumes input events, emits a bounded list of effect
//! commands, and renders the active screen into an abstract frame.

pub mod header;
pub mod menu;
pub mod seven_segments;
pub mod state;

use crate::alarm::{Alarm, AlarmManager};
use crate::datetime::DateTime;
use crate::frame::{fv, text_at, DrawPrimitive, PrimV};
use crate::text::{
    centi_len, dec_len, dow_name, fmt_centi, fmt_u32, fmt_u32_pad2, fmt_u32_spaces2,
    spec_alarm_text, spec_centi, spec_dec, spec_dec2, spec_dow_name, spec_pad2,
};
use crate::ui::seven_segments::SevenSegments;
use vstd::prelude::*;

verus! {

/// Snapshot of the environment sensor.
#[derive(Debug, Copy, Clone, PartialEq, Eq, Structural)]
pub struct Environment {
    /// unit: Pa
    pub pressure: u32,
    /// unit: c°C
    pub temperature: i16,
    /// unit: %
    pub humidity: u8,
}

impl Default for Environment {
    fn default() -> (e: Environment)
        ensures
            e.pressure == 0 && e.temperature == 0 && e.humidity == 0,
    {
        Environment { pressure: 0, temperature: 0, humidity: 0 }
    }
}

/// One input event for the reducer.
#[derive(Debug, Clone)]
pub enum Msg {
    DateTime(DateTime),
    Environment(Environment),
    FailEnvironment,
    ButtonCancel,
    ButtonMinus,
    ButtonPlus,
    ButtonOk,
    AlarmManager(AlarmManager),
}

/// One effect command for the dispatcher to execute.
#[derive(Debug, Clone, PartialEq)]
pub enum Cmd {
    UpdateRtc(DateTime),
    UpdateAlarm(Alarm, usize),
    FullUpdate,
}

#[verifier::external_type_specification]
#[verifier::external_body]
#[verifier::reject_recursive_types(T)]
pub struct ExHeaplessVec<T, const N: usize>(heapless::Vec<T, N>);

/// The commands a bounded command vector holds, oldest first.
pub uninterp spec fn cmd_list(v: heapless::Vec<Cmd, 4>) -> Seq<Cmd>;

/// Relies on heapless::Vec::new: a fresh fixed-capacity vector is empty.
#[verifier::external_body]
fn cmd_list_new() -> (v: heapless::Vec<Cmd, 4>)
    ensures
        cmd_list(v) == Seq::<Cmd>::empty(),
{
    heapless::Vec::new()
}

/// Relies on heapless::Vec::push: the item is appended when the length is
/// below the capacity, and handed back with the vector left unchanged
/// when the vector is already full.
#[verifier::external_body]
pub(crate) fn cmd_list_push(v: &mut heapless::Vec<Cmd, 4>, cmd: Cmd) -> (r: Result<(), Cmd>)
    ensures
        cmd_list(*old(v)).len() < 4 ==> r is Ok && cmd_list(*final(v)) == cmd_list(
            *old(v),
        ).push(cmd),
        cmd_list(*old(v)).len() >= 4 ==> (r matches Err(c) && c == cmd) && cmd_list(*final(v))
            == cmd_list(*old(v)),
{
    v.push(cmd)
}

/// Whether an event carries a well-formed payload; the dispatcher only
/// feeds the reducer values the calendar and the alarm store produced.
pub open spec fn spec_msg_wf(msg: Msg) -> bool {
    match msg {
        Msg::DateTime(dt) => dt.wf(),
        Msg::AlarmManager(am) => am.wf(),
        _ => true,
    }
}

/// The presentation model the reducer owns.
#[derive(Debug, Clone)]
pub struct Model {
    pub now: DateTime,
    pub env: Environment,
    pub nb_fail_environment: u32,
    pub alarm_manager: AlarmManager,
    pub screen: state::Screen,
}

/// Ok: the screen the button leads to, and the command it emits there.
pub open spec fn spec_ok_transition(m: Model) -> (state::Screen, Seq<Cmd>) {
    match m.screen {
        state::Screen::Clock => (state::Screen::Menu(state::MenuElt::Clock), Seq::<Cmd>::empty()),
        state::Screen::Menu(state::MenuElt::Clock) => (state::Screen::Clock, Seq::<Cmd>::empty()),
        state::Screen::Menu(state::MenuElt::SetClock) => (
            state::Screen::SetClock(
                state::EditDateTime {
                    datetime: DateTime { sec: 0, ..m.now },
                    state: state::EditDateTimeState::Year,
                },
            ),
            Seq::<Cmd>::empty(),
        ),
        state::Screen::Menu(state::MenuElt::ManageAlarms) => (
            state::Screen::ManageAlarms(0),
            Seq::<Cmd>::empty(),
        ),
        state::Screen::SetClock(e) => {
            let stepped = state::spec_edit_ok(e);
            match stepped.1 {
                Some(dt) => (state::Screen::Clock, seq![Cmd::UpdateRtc(dt)]),
                None => (state::Screen::SetClock(stepped.0), Seq::<Cmd>::empty()),
            }
        },
        state::Screen::ManageAlarms(i) => (
            state::Screen::ManageAlarm(state::spec_manage_new(m.alarm_manager, i as int)),
            Seq::<Cmd>::empty(),
        ),
        state::Screen::ManageAlarm(ma) => state::spec_manage_ok(ma),
    }
}

/// Cancel: the screen the button leads to.
pub open spec fn spec_cancel_screen(m: Model) -> state::Screen {
    match m.screen {
        state::Screen::Clock => state::Screen::Clock,
        state::Screen::Menu(_) => state::Screen::Clock,
        state::Screen::SetClock(e) => state::spec_edit_cancel(e),
        state::Screen::ManageAlarms(_) => state::Screen::Menu(state::MenuElt::ManageAlarms),
        state::Screen::ManageAlarm(ma) => state::spec_manage_cancel(ma),
    }
}

/// Plus: cycle or step up within the current screen.
pub open spec fn spec_plus_screen(m: Model) -> state::Screen {
    match m.screen {
        state::Screen::Clock => state::Screen::Clock,
        state::Screen::Menu(e) => state::Screen::Menu(state::spec_menu_next(e)),
        state::Screen::SetClock(e) => state::Screen::SetClock(state::spec_edit_next(e)),
        state::Screen::ManageAlarms(i) => state::Screen::ManageAlarms(((i + 1) % 5) as usize),
        state::Screen::ManageAlarm(ma) => state::Screen::ManageAlarm(state::spec_manage_next(ma)),
    }
}

/// Minus: cycle or step down within the current screen.
pub open spec fn spec_minus_screen(m: Model) -> state::Screen {
    match m.screen {
        state::Screen::Clock => state::Screen::Clock,
        state::Screen::Menu(e) => state::Screen::Menu(state::spec_menu_prev(e)),
        state::Screen::SetClock(e) => state::Screen::SetClock(state::spec_edit_prev(e)),
        state::Screen::ManageAlarms(i) => state::Screen::ManageAlarms(((i + 5 - 1) % 5) as usize),
        state::Screen::ManageAlarm(ma) => state::Screen::ManageAlarm(state::spec_manage_prev(ma)),
    }
}

/// The reducer: the model after one event, and the commands it emits.
/// A tick landing exactly at midnight forces a full redraw; any button
/// press that lands on the clock screen does too.
pub open spec fn spec_update(m: Model, msg: Msg) -> (Model, Seq<Cmd>) {
    match msg {
        Msg::DateTime(dt) => (
            Model { now: dt, ..m },
            if dt.hour == 0 && dt.min == 0 && dt.sec == 0 {
                seq![Cmd::FullUpdate]
            } else {
                Seq::<Cmd>::empty()
            },
        ),
        Msg::Environment(env) => (
            Model { env, nb_fail_environment: 0, ..m },
            Seq::<Cmd>::empty(),
        ),
        Msg::FailEnvironment => (
            Model {
                nb_fail_environment: if m.nb_fail_environment < u32::MAX {
                    (m.nb_fail_environment + 1) as u32
                } else {
                    m.nb_fail_environment
                },
                ..m
            },
            Seq::<Cmd>::empty(),
        ),
        Msg::AlarmManager(am) => (Model { alarm_manager: am, ..m }, Seq::<Cmd>::empty()),
        Msg::ButtonOk => {
            let stepped = spec_ok_transition(m);
            (
                Model { screen: stepped.0, ..m },
                if stepped.0 is Clock {
                    stepped.1.push(Cmd::FullUpdate)
                } else {
                    stepped.1
                },
            )
        },
        Msg::ButtonCancel => {
            let scr = spec_cancel_screen(m);
            (
                Model { screen: scr, ..m },
                if scr is Clock {
                    seq![Cmd::FullUpdate]
                } else {
                    Seq::<Cmd>::empty()
                },
            )
        },
        Msg::ButtonPlus => (Model { screen: spec_plus_screen(m), ..m }, Seq::<Cmd>::empty()),
        Msg::ButtonMinus => (Model { screen: spec_minus_screen(m), ..m }, Seq::<Cmd>::empty()),
    }
}

impl Model {
    pub open spec fn wf(self) -> bool {
        &&& self.now.wf()
        &&& self.alarm_manager.wf()
        &&& self.screen.wf()
    }

    /// The boot model: epoch zero, no reading, default alarms, clock shown.
    pub fn init() -> (m: Model)
        ensures
            m.wf(),
            m.now.spec_epoch() == 0,
            m.env.pressure == 0 && m.env.temperature == 0 && m.env.humidity == 0,
            m.nb_fail_environment == 0,
            forall|i: int|
                0 <= i < 5 ==> m.alarm_manager.alarms@[i] == crate::alarm::spec_default_alarm(),
            m.screen is Clock,
    {
        Model {
            now: DateTime::new(0),
            env: Environment::default(),
            nb_fail_environment: 0,
            alarm_manager: AlarmManager::default(),
            screen: state::Screen::Clock,
        }
    }

    /// Consume one event, mutate the model, and emit the commands the
    /// dispatcher must execute, never more than the list's capacity.
    pub fn update(&mut self, msg: Msg) -> (cmds: heapless::Vec<Cmd, 4>)
        requires
            old(self).wf(),
            spec_msg_wf(msg),
        ensures
            final(self).wf(),
            *final(self) == spec_update(*old(self), msg).0,
            cmd_list(cmds) == spec_update(*old(self), msg).1,
    {
        let mut cmds = cmd_list_new();
        match msg {
            Msg::DateTime(dt) => {
                self.now = dt;
                if self.now.hour == 0 && self.now.min == 0 && self.now.sec == 0 {
                    let _ = cmd_list_push(&mut cmds, Cmd::FullUpdate);
                }
            },
            Msg::Environment(measurements) => {
                self.env = measurements;
                self.nb_fail_environment = 0;
            },
            Msg::FailEnvironment => {
                if self.nb_fail_environment < u32::MAX {
                    self.nb_fail_environment = self.nb_fail_environment + 1;
                }
            },
            Msg::AlarmManager(am) => {
                self.alarm_manager = am;
            },
            Msg::ButtonOk => {
                let scr0 = self.screen;
                let new_screen = match scr0 {
                    state::Screen::Clock => state::Screen::Menu(state::MenuElt::Clock),
                    state::Screen::Menu(state::MenuElt::Clock) => state::Screen::Clock,
                    state::Screen::Menu(state::MenuElt::SetClock) => {
                        let mut dt = self.now;
                        dt.sec = 0;
                        state::Screen::SetClock(state::EditDateTime::new(dt))
                    },
                    state::Screen::Menu(state::MenuElt::ManageAlarms) => state::Screen::ManageAlarms(
                        0,
                    ),
                    state::Screen::SetClock(mut edit) => match edit.ok() {
                        Some(dt) => {
                            let _ = cmd_list_push(&mut cmds, Cmd::UpdateRtc(dt));
                            state::Screen::Clock
                        },
                        None => state::Screen::SetClock(edit),
                    },
                    state::Screen::ManageAlarms(i) => state::Screen::ManageAlarm(
                        state::ManageAlarm::new(&self.alarm_manager, i),
                    ),
                    state::Screen::ManageAlarm(st) => st.ok(&mut cmds),
                };
                self.screen = new_screen;
                if let state::Screen::Clock = self.screen {
                    let _ = cmd_list_push(&mut cmds, Cmd::FullUpdate);
                }
            },
            Msg::ButtonCancel => {
                let scr0 = self.screen;
                let new_screen = match scr0 {
                    state::Screen::Clock => state::Screen::Clock,
                    state::Screen::Menu(mut st) => st.cancel(),
                    state::Screen::SetClock(mut st) => st.cancel(),
                    state::Screen::ManageAlarms(_) => state::Screen::Menu(
                        state::MenuElt::ManageAlarms,
                    ),
                    state::Screen::ManageAlarm(mut st) => st.cancel(),
                };
                self.screen = new_screen;
                if let state::Screen::Clock = self.screen {
                    let _ = cmd_list_push(&mut cmds, Cmd::FullUpdate);
                }
            },
            Msg::ButtonPlus => {
                let scr0 = self.screen;
                self.screen = match scr0 {
                    state::Screen::Clock => state::Screen::Clock,
                    state::Screen::Menu(mut st) => {
                        st.next();
                        state::Screen::Menu(st)
                    },
                    state::Screen::SetClock(mut st) => {
                        st.next();
                        state::Screen::SetClock(st)
                    },
                    state::Screen::ManageAlarms(i) => state::Screen::ManageAlarms((i + 1) % 5),
                    state::Screen::ManageAlarm(mut st) => {
                        st.next();
                        state::Screen::ManageAlarm(st)
                    },
                };
            },
            Msg::ButtonMinus => {
                let scr0 = self.screen;
                self.screen = match scr0 {
                    state::Screen::Clock => state::Screen::Clock,
                    state::Screen::Menu(mut st) => {
                        st.prev();
                        state::Screen::Menu(st)
                    },
                    state::Screen::SetClock(mut st) => {
                        st.prev();
                        state::Screen::SetClock(st)
                    },
                    state::Screen::ManageAlarms(i) => state::Screen::ManageAlarms((i + 5 - 1) % 5),
                    state::Screen::ManageAlarm(mut st) => {
                        st.prev();
                        state::Screen::ManageAlarm(st)
                    },
                };
            },
        }
        cmds
    }
}

/// One update never emits more commands than the capacity of the
/// command list; in fact no transition emits more than two.
pub proof fn lemma_update_cmd_bound(m: Model, msg: Msg)
    ensures
        spec_update(m, msg).1.len() <= 2,
{
}

/// From the clock screen, pressing Ok and then Cancel leads back to the
/// clock screen with the model unchanged, and nothing is emitted on the
/// way beyond full-redraw requests.
pub proof fn lemma_menu_navigation_closure(m: Model)
    requires
        m.screen is Clock,
    ensures
        ({
            let s1 = spec_update(m, Msg::ButtonOk);
            let s2 = spec_update(s1.0, Msg::ButtonCancel);
            &&& s2.0.screen is Clock
            &&& s2.0 == m
            &&& forall|i: int| 0 <= i < s1.1.len() ==> s1.1[i] is FullUpdate
            &&& forall|i: int| 0 <= i < s2.1.len() ==> s2.1[i] is FullUpdate
        }),
{
}

/// Entering the alarm editor from the alarm list, toggling the enabled
/// flag, stepping the cursor back to the save item and confirming emits
/// exactly one persist command: the slot's alarm with its enabled flag
/// flipped, at the slot's own index, followed by the redraw request of
/// returning to the clock.
pub proof fn lemma_alarm_edit_round_trip(m: Model, i: usize)
    requires
        m.wf(),
        m.screen == state::Screen::ManageAlarms(i),
    ensures
        ({
            let s1 = spec_update(m, Msg::ButtonOk);
            let s2 = spec_update(s1.0, Msg::ButtonOk);
            let s3 = spec_update(s2.0, Msg::ButtonMinus);
            let s4 = spec_update(s3.0, Msg::ButtonOk);
            let stored = m.alarm_manager.alarms@[i as int];
            &&& s4.0.screen is Clock
            &&& s1.1 + s2.1 + s3.1 + s4.1 == seq![
                Cmd::UpdateAlarm((Alarm { is_enable: !stored.is_enable, ..stored }), i),
                Cmd::FullUpdate,
            ]
        }),
{
    let s1 = spec_update(m, Msg::ButtonOk);
    let s2 = spec_update(s1.0, Msg::ButtonOk);
    let s3 = spec_update(s2.0, Msg::ButtonMinus);
    let s4 = spec_update(s3.0, Msg::ButtonOk);
    let stored = m.alarm_manager.alarms@[i as int];
    assert(s1.1 + s2.1 + s3.1 + s4.1 =~= seq![
        Cmd::UpdateAlarm((Alarm { is_enable: !stored.is_enable, ..stored }), i),
        Cmd::FullUpdate,
    ]);
}

/// The date line in the top-left corner.
pub open spec fn spec_top_left_text(m: Model) -> Seq<char> {
    spec_dec(m.now.year as int) + "-"@ + spec_dec2(m.now.month as int) + "-"@ + spec_dec2(
        m.now.day as int,
    ) + " "@ + spec_dow_name(m.now.day_of_week)
}

/// The next-alarm prediction in the bottom-left corner.
pub open spec fn spec_bottom_left_text(m: Model) -> Seq<char> {
    match m.alarm_manager.spec_next_ring(m.now) {
        None => "No alarm"@,
        Some(t) => "Alarm: "@ + spec_dow_name(t.0) + " "@ + spec_dec(t.1 as int) + ":"@ + spec_dec2(
            t.2 as int,
        ),
    }
}

/// The pressure readout in the bottom-right corner, prefixed by the
/// stale-for-seconds counter when readings are failing.
pub open spec fn spec_bottom_right_text(m: Model) -> Seq<char> {
    (if m.nb_fail_environment != 0 {
        "("@ + spec_dec(m.nb_fail_environment as int) + "s) "@
    } else {
        Seq::<char>::empty()
    }) + spec_centi(m.env.pressure as i32 as int) + "hPa"@
}

/// The humidity and temperature readout in the top-right corner.
pub open spec fn spec_top_right_text(m: Model) -> Seq<char> {
    (if m.env.humidity != 0 {
        spec_pad2(m.env.humidity as int) + "%RH  "@
    } else {
        Seq::<char>::empty()
    }) + spec_centi(m.env.temperature as int) + "°C"@
}

/// The four header texts, the right-hand ones right-aligned.
pub open spec fn spec_header(m: Model) -> Seq<PrimV> {
    seq![text_at(0, 0, spec_top_left_text(m))] + seq![text_at(0, 112, spec_bottom_left_text(m))]
        + seq![
        text_at(295 - 8 * spec_bottom_right_text(m).len(), 112, spec_bottom_right_text(m)),
    ] + seq![text_at(295 - 8 * spec_top_right_text(m).len(), 0, spec_top_right_text(m))]
}

/// The clock screen's body: hour and minute as large seven-segment
/// digits with a blinking colon, and the seconds in small type.
pub open spec fn spec_clock_body(m: Model) -> Seq<PrimV> {
    let s0 = SevenSegments { width: 52, height: 90, thickness: 12, space: 13, x: 0, y: 18 };
    let s1 = s0.spec_after_digit();
    let s2 = s1.spec_after_digit();
    let s3 = s2.spec_after_colon();
    let s4 = s3.spec_after_digit();
    (if m.now.hour >= 10 {
        s0.spec_digit_rects(m.now.hour as int / 10)
    } else {
        Seq::<PrimV>::empty()
    }) + s1.spec_digit_rects(m.now.hour as int % 10) + (if m.now.sec % 2 == 0 {
        s2.spec_colon_rects()
    } else {
        Seq::<PrimV>::empty()
    }) + s3.spec_digit_rects(m.now.min as int / 10) + s4.spec_digit_rects(m.now.min as int % 10)
        + seq![text_at(272, 17, ":"@ + spec_dec2(m.now.sec as int))]
}

/// The main menu's body.
pub open spec fn spec_menu_body(elt: state::MenuElt) -> Seq<PrimV> {
    menu::spec_menu("Menu:"@, state::spec_menu_elt_items(), state::spec_menu_index(elt))
}

/// The clock editor's title: the value being built.
pub open spec fn spec_set_clock_title(e: state::EditDateTime) -> Seq<char> {
    "Edit: "@ + spec_dec(e.datetime.year as int) + "-"@ + spec_dec2(e.datetime.month as int)
        + "-"@ + spec_dec2(e.datetime.day as int) + " "@ + spec_dec2(e.datetime.hour as int) + ":"@
        + spec_dec2(e.datetime.min as int)
}

/// The clock editor's body: the edited value and the field under edit.
pub open spec fn spec_set_clock_body(e: state::EditDateTime) -> Seq<PrimV> {
    menu::spec_menu(spec_set_clock_title(e), seq![state::spec_edit_label(e.state)], 0)
}

/// The alarm list's body: one line per slot.
pub open spec fn spec_manage_alarms_body(mgr: AlarmManager, i: int) -> Seq<PrimV> {
    menu::spec_menu(
        "Select alarm:"@,
        Seq::new(5, |j: int| spec_alarm_text(mgr.alarms@[j])),
        i,
    )
}

/// The whole frame: the header, then the active screen's body.
pub open spec fn spec_view(m: Model) -> Seq<PrimV> {
    spec_header(m) + match m.screen {
        state::Screen::Clock => spec_clock_body(m),
        state::Screen::Menu(elt) => spec_menu_body(elt),
        state::Screen::SetClock(e) => spec_set_clock_body(e),
        state::Screen::ManageAlarms(i) => spec_manage_alarms_body(m.alarm_manager, i as int),
        state::Screen::ManageAlarm(ma) => state::spec_manage_render(ma),
    }
}

impl Model {
    fn render_header(&self, frame: &mut Vec<DrawPrimitive>)
        requires
            self.wf(),
        ensures
            fv(final(frame)@) == fv(old(frame)@) + spec_header(*self),
    {
        let ghost f0 = fv(frame@);
        let mut s1 = fmt_u32(self.now.year as u32);
        s1.append("-");
        s1.append(fmt_u32_pad2(self.now.month as u32).as_str());
        s1.append("-");
        s1.append(fmt_u32_pad2(self.now.day as u32).as_str());
        s1.append(" ");
        s1.append(dow_name(self.now.day_of_week));
        assert(s1@ =~= spec_top_left_text(*self));
        header::top_left(s1, frame);
        let mut s2: String;
        match self.alarm_manager.next_ring(&self.now) {
            None => {
                s2 = String::from_str("No alarm");
            },
            Some((dow, hh, mm)) => {
                s2 = String::from_str("Alarm: ");
                s2.append(dow_name(dow));
                s2.append(" ");
                s2.append(fmt_u32(hh as u32).as_str());
                s2.append(":");
                s2.append(fmt_u32_pad2(mm as u32).as_str());
            },
        }
        assert(s2@ =~= spec_bottom_left_text(*self));
        header::bottom_left(s2, frame);
        let pc: i32 = #[verifier::truncate] (self.env.pressure as i32);
        let mut s3: String;
        let mut len3: u32;
        if self.nb_fail_environment != 0 {
            s3 = String::from_str("(");
            s3.append(fmt_u32(self.nb_fail_environment).as_str());
            s3.append("s) ");
            proof {
                reveal_strlit("(");
                reveal_strlit("s) ");
            }
            len3 = 1 + dec_len(self.nb_fail_environment) + 3;
        } else {
            s3 = String::new();
            len3 = 0;
        }
        s3.append(fmt_centi(pc).as_str());
        s3.append("hPa");
        proof {
            reveal_strlit("hPa");
        }
        len3 = len3 + centi_len(pc) + 3;
        assert(s3@ =~= spec_bottom_right_text(*self));
        assert(len3 == s3@.len());
        header::bottom_right(s3, len3, frame);
        let tc: i32 = self.env.temperature as i32;
        let mut s4: String;
        let mut len4: u32;
        if self.env.humidity != 0 {
            s4 = fmt_u32_spaces2(self.env.humidity as u32);
            let hl: u32 = if self.env.humidity < 10 {
                proof {
                    reveal_strlit(" ");
                    reveal_strlit("0");
                    crate::text::lemma_dec_len(self.env.humidity as int);
                }
                2
            } else {
                dec_len(self.env.humidity as u32)
            };
            s4.append("%RH  ");
            proof {
                reveal_strlit("%RH  ");
            }
            len4 = hl + 5;
        } else {
            s4 = String::new();
            len4 = 0;
        }
        s4.append(fmt_centi(tc).as_str());
        s4.append("°C");
        proof {
            reveal_strlit("°C");
        }
        len4 = len4 + centi_len(tc) + 2;
        assert(s4@ =~= spec_top_right_text(*self));
        assert(len4 == s4@.len());
        header::top_right(s4, len4, frame);
        assert(fv(frame@) =~= f0 + spec_header(*self));
    }

    #[verifier::rlimit(100)]
    fn render_clock(&self, frame: &mut Vec<DrawPrimitive>)
        requires
            self.wf(),
        ensures
            fv(final(frame)@) == fv(old(frame)@) + spec_clock_body(*self),
    {
        let ghost f0 = fv(frame@);
        let ghost s0 = (SevenSegments { width: 52, height: 90, thickness: 12, space: 13, x: 0, y: 18 });
        let ghost s1 = s0.spec_after_digit();
        let ghost s2 = s1.spec_after_digit();
        let ghost s3 = s2.spec_after_colon();
        let ghost s4 = s3.spec_after_digit();
        let ghost t1 = if self.now.hour >= 10 {
            s0.spec_digit_rects(self.now.hour as int / 10)
        } else {
            Seq::<PrimV>::empty()
        };
        let ghost t2 = s1.spec_digit_rects(self.now.hour as int % 10);
        let ghost t3 = if self.now.sec % 2 == 0 {
            s2.spec_colon_rects()
        } else {
            Seq::<PrimV>::empty()
        };
        let ghost t4 = s3.spec_digit_rects(self.now.min as int / 10);
        let ghost t5 = s4.spec_digit_rects(self.now.min as int % 10);
        let mut seven = SevenSegments::new(0, 18);
        assert(seven == s0);
        if self.now.hour >= 10 {
            seven.digit(self.now.hour / 10, frame);
        } else {
            seven.digit_space();
        }
        assert(fv(frame@) =~= f0 + t1);
        seven.digit(self.now.hour % 10, frame);
        assert(fv(frame@) =~= f0 + t1 + t2);
        if self.now.sec % 2 == 0 {
            seven.colon(frame);
        } else {
            seven.colon_space();
        }
        assert(fv(frame@) =~= f0 + t1 + t2 + t3);
        seven.digit(self.now.min / 10, frame);
        assert(fv(frame@) =~= f0 + t1 + t2 + t3 + t4);
        seven.digit(self.now.min % 10, frame);
        assert(fv(frame@) =~= f0 + t1 + t2 + t3 + t4 + t5);
        let mut s = String::from_str(":");
        s.append(fmt_u32_pad2(self.now.sec as u32).as_str());
        crate::frame::push_text(frame, 272, 17, s);
        assert(fv(frame@) =~= f0 + spec_clock_body(*self));
    }

    fn render_set_clock(&self, e: &state::EditDateTime, frame: &mut Vec<DrawPrimitive>)
        requires
            e.datetime.wf(),
        ensures
            fv(final(frame)@) == fv(old(frame)@) + spec_set_clock_body(*e),
    {
        let mut title = String::from_str("Edit: ");
        title.append(fmt_u32(e.datetime.year as u32).as_str());
        title.append("-");
        title.append(fmt_u32_pad2(e.datetime.month as u32).as_str());
        title.append("-");
        title.append(fmt_u32_pad2(e.datetime.day as u32).as_str());
        title.append(" ");
        title.append(fmt_u32_pad2(e.datetime.hour as u32).as_str());
        title.append(":");
        title.append(fmt_u32_pad2(e.datetime.min as u32).as_str());
        assert(title@ =~= spec_set_clock_title(*e));
        let mut v: Vec<String> = Vec::new();
        v.push(String::from_str(e.as_edit_str()));
        proof {
            assert(v@.map_values(|s: String| s@) =~= seq![state::spec_edit_label(e.state)]);
        }
        menu::render(title, &v, 0, frame);
    }

    fn render_manage_alarms(&self, i: usize, frame: &mut Vec<DrawPrimitive>)
        requires
            self.wf(),
            i < 5,
        ensures
            fv(final(frame)@) == fv(old(frame)@) + spec_manage_alarms_body(
                self.alarm_manager,
                i as int,
            ),
    {
        let mut v: Vec<String> = Vec::new();
        let mut j: usize = 0;
        while j < 5
            invariant
                j <= 5,
                v@.len() == j,
                forall|k: int|
                    0 <= k < j ==> v@[k]@ == spec_alarm_text(self.alarm_manager.alarms@[k]),
            decreases 5 - j,
        {
            v.push(self.alarm_manager.alarms[j].to_text());
            j = j + 1;
        }
        proof {
            assert(v@.map_values(|s: String| s@) =~= Seq::new(
                5,
                |k: int| spec_alarm_text(self.alarm_manager.alarms@[k]),
            ));
        }
        menu::render(String::from_str("Select alarm:"), &v, i, frame);
    }

    /// Render the model into the abstract frame: the header, then the
    /// active screen's body. A pure function of the model.
    pub fn view(&self) -> (frame: Vec<DrawPrimitive>)
        requires
            self.wf(),
        ensures
            fv(frame@) == spec_view(*self),
    {
        let mut frame: Vec<DrawPrimitive> = Vec::new();
        proof {
            assert(fv(frame@) =~= Seq::<PrimV>::empty());
        }
        self.render_header(&mut frame);
        match self.screen {
            state::Screen::Clock => self.render_clock(&mut frame),
            state::Screen::Menu(elt) => {
                let items = elt.items();
                proof {
                    assert(items@.map_values(|s: String| s@).len() == items@.len());
                }
                menu::render(String::from_str("Menu:"), &items, elt.index(), &mut frame);
            },
            state::Screen::SetClock(e) => self.render_set_clock(&e, &mut frame),
            state::Screen::ManageAlarms(i) => self.render_manage_alarms(i, &mut frame),
            state::Screen::ManageAlarm(ma) => ma.render(&mut frame),
        }
        assert(fv(frame@) =~= spec_view(*self));
        frame
    }
}

} // verus!
