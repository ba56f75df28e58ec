//! Alarm slots and their scheduling: per-alarm trigger detection
//! (`must_ring`), prediction of the next upcoming ring (`next_ring`), and
//! the fixed-width encoding used to persist a slot.

use crate::datetime::{dow_index, spec_next_dow, DateTime, DayOfWeek};
use vstd::prelude::*;

verus! {

/// Bit assigned to each weekday in the repeat bitset.
pub open spec fn dow_mask(d: DayOfWeek) -> u8 {
    match d {
        DayOfWeek::Monday => 0x01,
        DayOfWeek::Tuesday => 0x02,
        DayOfWeek::Wednesday => 0x04,
        DayOfWeek::Thursday => 0x08,
        DayOfWeek::Friday => 0x10,
        DayOfWeek::Saturday => 0x20,
        DayOfWeek::Sunday => 0x40,
    }
}

fn dow_bit(d: DayOfWeek) -> (m: u8)
    ensures
        m == dow_mask(d),
{
    match d {
        DayOfWeek::Monday => 0x01,
        DayOfWeek::Tuesday => 0x02,
        DayOfWeek::Wednesday => 0x04,
        DayOfWeek::Thursday => 0x08,
        DayOfWeek::Friday => 0x10,
        DayOfWeek::Saturday => 0x20,
        DayOfWeek::Sunday => 0x40,
    }
}

/// Repeat mode of one alarm: a bitset over the seven weekdays plus a
/// one-time flag in the top bit, meaning "fire once, then disable".
#[derive(Debug, Copy, Clone, PartialEq, Eq, Structural)]
pub struct Mode {
    pub bits: u8,
}

impl Mode {
    pub open spec fn spec_contains_dow(self, d: DayOfWeek) -> bool {
        self.bits & dow_mask(d) != 0
    }

    pub open spec fn spec_one_time(self) -> bool {
        self.bits & 0x80 != 0
    }

    pub open spec fn spec_is_empty(self) -> bool {
        self.bits == 0
    }

    /// At least one weekday flag is set.
    pub open spec fn spec_has_any_dow(self) -> bool {
        self.bits & 0x7f != 0
    }

    pub fn empty() -> (m: Mode)
        ensures
            m.bits == 0,
    {
        Mode { bits: 0 }
    }

    pub fn is_empty(self) -> (r: bool)
        ensures
            r == self.spec_is_empty(),
    {
        self.bits == 0
    }

    pub fn is_one_time(self) -> (r: bool)
        ensures
            r == self.spec_one_time(),
    {
        self.bits & 0x80 != 0
    }

    pub fn contains_dow(self, dow: DayOfWeek) -> (r: bool)
        ensures
            r == self.spec_contains_dow(dow),
    {
        self.bits & dow_bit(dow) != 0
    }

    pub fn insert_dow(&mut self, dow: DayOfWeek)
        ensures
            final(self).bits == old(self).bits | dow_mask(dow),
    {
        self.bits = self.bits | dow_bit(dow);
    }

    pub fn toggle_dow(&mut self, dow: DayOfWeek)
        ensures
            final(self).bits == old(self).bits ^ dow_mask(dow),
    {
        self.bits = self.bits ^ dow_bit(dow);
    }

    pub fn insert_one_time(&mut self)
        ensures
            final(self).bits == old(self).bits | 0x80u8,
    {
        self.bits = self.bits | 0x80;
    }

    pub fn toggle_one_time(&mut self)
        ensures
            final(self).bits == old(self).bits ^ 0x80u8,
    {
        self.bits = self.bits ^ 0x80;
    }
}

/// Default repeat mode: every weekday except Saturday and Sunday.
pub open spec fn spec_default_mode() -> Mode {
    Mode { bits: 0x1f }
}

impl Default for Mode {
    fn default() -> (m: Mode)
        ensures
            m == spec_default_mode(),
    {
        Mode { bits: 0x1f }
    }
}

/// A weekday flag can only be set when some weekday bit is set.
pub proof fn lemma_no_dow(m: Mode, d: DayOfWeek)
    requires
        !m.spec_has_any_dow(),
    ensures
        !m.spec_contains_dow(d),
{
    let b = m.bits;
    assert(b & 0x7f == 0 ==> b & 0x01 == 0 && b & 0x02 == 0 && b & 0x04 == 0 && b & 0x08 == 0 && b
        & 0x10 == 0 && b & 0x20 == 0 && b & 0x40 == 0) by (bit_vector);
}

/// Some weekday bit is set exactly when some weekday flag is contained.
pub proof fn lemma_has_any_dow(m: Mode)
    ensures
        m.spec_has_any_dow() <==> exists|d: DayOfWeek| m.spec_contains_dow(d),
{
    let b = m.bits;
    if m.spec_has_any_dow() {
        assert(b & 0x7f != 0 ==> b & 0x01 != 0 || b & 0x02 != 0 || b & 0x04 != 0 || b & 0x08 != 0
            || b & 0x10 != 0 || b & 0x20 != 0 || b & 0x40 != 0) by (bit_vector);
        if b & 0x01 != 0 {
            assert(m.spec_contains_dow(DayOfWeek::Monday));
        } else if b & 0x02 != 0 {
            assert(m.spec_contains_dow(DayOfWeek::Tuesday));
        } else if b & 0x04 != 0 {
            assert(m.spec_contains_dow(DayOfWeek::Wednesday));
        } else if b & 0x08 != 0 {
            assert(m.spec_contains_dow(DayOfWeek::Thursday));
        } else if b & 0x10 != 0 {
            assert(m.spec_contains_dow(DayOfWeek::Friday));
        } else if b & 0x20 != 0 {
            assert(m.spec_contains_dow(DayOfWeek::Saturday));
        } else {
            assert(m.spec_contains_dow(DayOfWeek::Sunday));
        }
    } else {
        assert forall|d: DayOfWeek| !m.spec_contains_dow(d) by {
            lemma_no_dow(m, d);
        }
    }
}

/// Minutes into the day of a time of day.
pub open spec fn spec_time(hour: u8, min: u8) -> int {
    60 * hour + min
}

pub fn time(hour: u8, min: u8) -> (t: u32)
    ensures
        t == spec_time(hour, min),
{
    hour as u32 * 60 + min as u32
}

/// One alarm slot: enabled flag, time of day, repeat mode.
#[derive(Debug, Copy, Clone, PartialEq, Eq, Structural)]
pub struct Alarm {
    pub is_enable: bool,
    pub hour: u8,
    pub min: u8,
    pub mode: Mode,
}

/// Default alarm: disabled, noon, weekday repeat.
pub open spec fn spec_default_alarm() -> Alarm {
    Alarm { is_enable: false, hour: 12, min: 0, mode: spec_default_mode() }
}

impl Default for Alarm {
    fn default() -> (a: Alarm)
        ensures
            a == spec_default_alarm(),
    {
        Alarm { is_enable: false, hour: 12, min: 0, mode: Mode::default() }
    }
}

/// First day with a set flag, walking at most `fuel` days forward from `d`.
pub open spec fn scan_dow(m: Mode, d: DayOfWeek, fuel: nat) -> Option<DayOfWeek>
    decreases fuel,
{
    if fuel == 0 {
        None
    } else if m.spec_contains_dow(d) {
        Some(d)
    } else {
        scan_dow(m, spec_next_dow(d), (fuel - 1) as nat)
    }
}

/// When some weekday flag is set, a scan of one full week finds a day,
/// whatever day it starts from.
pub proof fn lemma_scan_finds(m: Mode, d: DayOfWeek)
    requires
        m.spec_has_any_dow(),
    ensures
        scan_dow(m, d, 7) is Some,
{
    reveal_with_fuel(scan_dow, 8);
    lemma_has_any_dow(m);
    let d2 = choose|d2: DayOfWeek| m.spec_contains_dow(d2);
    assert(scan_dow(m, d, 7) is Some);
}

impl Alarm {
    pub open spec fn wf(self) -> bool {
        self.hour < 24 && self.min < 60
    }

    /// The given instant is the top of the minute this alarm is set for.
    pub open spec fn spec_matches_minute(self, dt: DateTime) -> bool {
        dt.sec == 0 && dt.hour == self.hour && dt.min == self.min
    }

    /// Whether the alarm fires at the given instant: it must be enabled,
    /// the instant must be the exact top of its minute, and either the
    /// one-time flag or the current weekday's flag must be set.
    pub open spec fn spec_must_ring(self, dt: DateTime) -> bool {
        &&& self.is_enable
        &&& self.spec_matches_minute(dt)
        &&& (self.mode.spec_one_time() || self.mode.spec_contains_dow(dt.day_of_week))
    }

    /// The alarm after a `must_ring` query: a one-time alarm whose minute
    /// matched disarms itself; any other alarm is left unchanged.
    pub open spec fn spec_after_must_ring(self, dt: DateTime) -> Alarm {
        if self.is_enable && self.spec_matches_minute(dt) && self.mode.spec_one_time() {
            Alarm { is_enable: false, ..self }
        } else {
            self
        }
    }

    /// The day the alarm would next fire on, were every weekday selected:
    /// today if its time of day is still ahead, else tomorrow.
    pub open spec fn spec_start_day(self, dt: DateTime) -> DayOfWeek {
        if spec_time(self.hour, self.min) <= spec_time(dt.hour, dt.min) {
            spec_next_dow(dt.day_of_week)
        } else {
            dt.day_of_week
        }
    }

    /// The next (day, hour, minute) at which this alarm will ring, strictly
    /// after the minute of `dt`: `None` for a disabled or empty-mode alarm;
    /// the very next occurrence of its time of day for a one-time alarm;
    /// else the first selected weekday at or after the start day.
    pub open spec fn spec_next_ring(self, dt: DateTime) -> Option<(DayOfWeek, u8, u8)> {
        if !self.is_enable || self.mode.spec_is_empty() {
            None
        } else if self.mode.spec_one_time() {
            Some((self.spec_start_day(dt), self.hour, self.min))
        } else {
            match scan_dow(self.mode, self.spec_start_day(dt), 7) {
                Some(d) => Some((d, self.hour, self.min)),
                None => None,
            }
        }
    }

    pub fn hour(&self) -> (h: u8)
        ensures
            h == self.hour,
    {
        self.hour
    }

    pub fn set_hour(&mut self, h: u8)
        requires
            h < 24,
        ensures
            *final(self) == (Alarm { hour: h, ..*old(self) }),
    {
        self.hour = h;
    }

    pub fn min(&self) -> (m: u8)
        ensures
            m == self.min,
    {
        self.min
    }

    pub fn set_min(&mut self, m: u8)
        requires
            m < 60,
        ensures
            *final(self) == (Alarm { min: m, ..*old(self) }),
    {
        self.min = m;
    }

    pub fn must_ring(&mut self, datetime: &DateTime) -> (r: bool)
        ensures
            r == old(self).spec_must_ring(*datetime),
            *final(self) == old(self).spec_after_must_ring(*datetime),
    {
        if !self.is_enable {
            return false;
        }
        if datetime.sec != 0 || datetime.hour != self.hour || datetime.min != self.min {
            return false;
        }
        if self.mode.is_one_time() {
            self.is_enable = false;
            true
        } else {
            self.mode.contains_dow(datetime.day_of_week)
        }
    }

    pub fn next_ring(&self, datetime: &DateTime) -> (r: Option<(DayOfWeek, u8, u8)>)
        ensures
            r == self.spec_next_ring(*datetime),
    {
        if !self.is_enable || self.mode.is_empty() {
            return None;
        }
        let mut day = if time(self.hour, self.min) <= time(datetime.hour, datetime.min) {
            datetime.day_of_week.next()
        } else {
            datetime.day_of_week
        };
        if self.mode.is_one_time() {
            return Some((day, self.hour, self.min));
        }
        proof {
            let b = self.mode.bits;
            assert(b != 0 && b & 0x80 == 0 ==> b & 0x7f != 0) by (bit_vector);
            lemma_scan_finds(self.mode, self.spec_start_day(*datetime));
        }
        let ghost start = day;
        let mut k: u8 = 0;
        while !self.mode.contains_dow(day)
            invariant
                k <= 7,
                scan_dow(self.mode, start, 7) is Some,
                scan_dow(self.mode, start, 7) == scan_dow(self.mode, day, (7 - k) as nat),
            decreases 7 - k,
        {
            day = day.next();
            k = k + 1;
        }
        Some((day, self.hour, self.min))
    }
}

/// Distance from `dt` to a candidate ring, in minutes, counting a
/// candidate on today's weekday whose time of day has already passed as
/// a full week ahead.
pub open spec fn spec_cmp_value(dt: DateTime, cand: (DayOfWeek, u8, u8)) -> int {
    let days0 = (dow_index(cand.0) + 7 - dow_index(dt.day_of_week)) % 7;
    let days = if cand.0 == dt.day_of_week && spec_time(cand.1, cand.2) <= spec_time(
        dt.hour,
        dt.min,
    ) {
        days0 + 7
    } else {
        days0
    };
    1440 * days + spec_time(cand.1, cand.2)
}

fn dow_number(d: DayOfWeek) -> (n: u8)
    ensures
        n == dow_index(d),
{
    match d {
        DayOfWeek::Monday => 0,
        DayOfWeek::Tuesday => 1,
        DayOfWeek::Wednesday => 2,
        DayOfWeek::Thursday => 3,
        DayOfWeek::Friday => 4,
        DayOfWeek::Saturday => 5,
        DayOfWeek::Sunday => 6,
    }
}

fn cmp_value(dt: &DateTime, cand: (DayOfWeek, u8, u8)) -> (v: u32)
    ensures
        v == spec_cmp_value(*dt, cand),
{
    let (dow, h, m) = cand;
    let mut days: u32 = ((dow_number(dow) + 7 - dow_number(dt.day_of_week)) % 7) as u32;
    let now_h = time(dt.hour, dt.min);
    let this_h = time(h, m);
    if dow == dt.day_of_week && this_h <= now_h {
        days = days + 7;
    }
    days * 1440 + this_h
}

/// The five alarm slots of the device.
#[derive(Debug, Clone)]
pub struct AlarmManager {
    pub alarms: [Alarm; 5],
}

impl Default for AlarmManager {
    fn default() -> (m: AlarmManager)
        ensures
            m.alarms@.len() == 5,
            forall|i: int| 0 <= i < 5 ==> m.alarms@[i] == spec_default_alarm(),
    {
        AlarmManager {
            alarms: [
                Alarm::default(),
                Alarm::default(),
                Alarm::default(),
                Alarm::default(),
                Alarm::default(),
            ],
        }
    }
}

impl AlarmManager {
    pub open spec fn wf(self) -> bool {
        forall|i: int| 0 <= i < 5 ==> self.alarms@[i].wf()
    }

    /// At least one slot fires at the given instant.
    pub open spec fn spec_must_ring(self, dt: DateTime) -> bool {
        exists|i: int| 0 <= i < 5 && self.alarms@[i].spec_must_ring(dt)
    }

    /// The best candidate among the first `n` slots, kept by the smaller
    /// minute distance; on a tie the earlier slot wins.
    pub open spec fn spec_next_ring_upto(self, dt: DateTime, n: int) -> Option<(DayOfWeek, u8, u8)>
        decreases n,
    {
        if n <= 0 {
            None
        } else {
            let prev = self.spec_next_ring_upto(dt, n - 1);
            match self.alarms@[n - 1].spec_next_ring(dt) {
                None => prev,
                Some(cur) => match prev {
                    None => Some(cur),
                    Some(mv) => if spec_cmp_value(dt, cur) < spec_cmp_value(dt, mv) {
                        Some(cur)
                    } else {
                        Some(mv)
                    },
                },
            }
        }
    }

    /// The next upcoming ring over all five slots.
    pub open spec fn spec_next_ring(self, dt: DateTime) -> Option<(DayOfWeek, u8, u8)> {
        self.spec_next_ring_upto(dt, 5)
    }

    /// Whether at least one alarm fires at this instant; each one-time
    /// slot whose minute matched disarms itself.
    pub fn must_ring(&mut self, datetime: &DateTime) -> (r: bool)
        ensures
            r == old(self).spec_must_ring(*datetime),
            forall|i: int|
                0 <= i < 5 ==> final(self).alarms@[i] == old(self).alarms@[i].spec_after_must_ring(
                    *datetime,
                ),
    {
        let mut any: bool = false;
        let mut i: usize = 0;
        while i < 5
            invariant
                i <= 5,
                forall|j: int|
                    0 <= j < i ==> self.alarms@[j] == old(self).alarms@[j].spec_after_must_ring(
                        *datetime,
                    ),
                forall|j: int| i <= j < 5 ==> self.alarms@[j] == old(self).alarms@[j],
                any == exists|j: int| 0 <= j < i && old(self).alarms@[j].spec_must_ring(*datetime),
            decreases 5 - i,
        {
            let mut a: Alarm = self.alarms[i];
            let fired = a.must_ring(datetime);
            self.alarms[i] = a;
            any = any || fired;
            i = i + 1;
        }
        any
    }

    /// Predict the next ring across all slots without mutating any state.
    pub fn next_ring(&self, datetime: &DateTime) -> (r: Option<(DayOfWeek, u8, u8)>)
        ensures
            r == self.spec_next_ring(*datetime),
    {
        let mut best: Option<(DayOfWeek, u8, u8)> = None;
        let mut i: usize = 0;
        while i < 5
            invariant
                i <= 5,
                best == self.spec_next_ring_upto(*datetime, i as int),
            decreases 5 - i,
        {
            match self.alarms[i].next_ring(datetime) {
                None => {},
                Some(cur) => {
                    match best {
                        None => {
                            best = Some(cur);
                        },
                        Some(mv) => {
                            if cmp_value(datetime, cur) < cmp_value(datetime, mv) {
                                best = Some(cur);
                            }
                        },
                    }
                },
            }
            i = i + 1;
        }
        best
    }
}

/// The alarm slot a persisted word decodes to, if any. The low byte holds
/// the repeat bits, the next two the hour and minute, and the top byte a
/// marker (with the enabled flag in its lowest bit) that distinguishes a
/// persisted slot from a cleared storage word.
pub open spec fn spec_decode_alarm(v: int) -> Option<Alarm> {
    let b0 = v % 0x100;
    let b1 = v / 0x100 % 0x100;
    let b2 = v / 0x10000 % 0x100;
    let b3 = v / 0x1000000 % 0x100;
    if (b3 == 0x80 || b3 == 0x81) && b1 < 24 && b2 < 60 {
        Some(
            Alarm {
                is_enable: b3 == 0x81,
                hour: b1 as u8,
                min: b2 as u8,
                mode: Mode { bits: b0 as u8 },
            },
        )
    } else {
        None
    }
}

impl Alarm {
    /// The fixed-width word this alarm persists as.
    pub open spec fn spec_encode(self) -> int {
        self.mode.bits + 0x100 * self.hour + 0x10000 * self.min + 0x1000000 * (
        if self.is_enable {
            0x81int
        } else {
            0x80int
        })
    }

    /// Pack the slot into one storage word.
    pub fn as_u32(&self) -> (v: u32)
        ensures
            v == self.spec_encode(),
    {
        self.mode.bits as u32 + 0x100 * self.hour as u32 + 0x10000 * self.min as u32 + (
        if self.is_enable {
            0x8100_0000
        } else {
            0x8000_0000
        })
    }

    /// Unpack a storage word; yields `None` for any word that no
    /// well-formed alarm persists as, such as a cleared register.
    pub fn try_from(v: u32) -> (r: Option<Alarm>)
        ensures
            r == spec_decode_alarm(v as int),
    {
        let b0: u8 = (v % 0x100) as u8;
        let b1: u8 = (v / 0x100 % 0x100) as u8;
        let b2: u8 = (v / 0x10000 % 0x100) as u8;
        let b3: u8 = (v / 0x1000000 % 0x100) as u8;
        if (b3 == 0x80 || b3 == 0x81) && b1 < 24 && b2 < 60 {
            Some(Alarm { is_enable: b3 == 0x81, hour: b1, min: b2, mode: Mode { bits: b0 } })
        } else {
            None
        }
    }
}

/// Persisting a well-formed alarm and reading the word back yields the
/// same alarm.
pub proof fn lemma_alarm_codec_round_trip(a: Alarm)
    requires
        a.wf(),
    ensures
        spec_decode_alarm(a.spec_encode()) == Some(a),
{
    let v = a.spec_encode();
    let b0 = a.mode.bits as int;
    let h = a.hour as int;
    let m = a.min as int;
    let e: int = if a.is_enable {
        0x81
    } else {
        0x80
    };
    let k1 = h + 0x100 * m + 0x10000 * e;
    let k2 = m + 0x100 * e;
    assert(v == k1 * 0x100 + b0) by {
        vstd::arithmetic::mul::lemma_mul_is_distributive_add_other_way(0x100, h, 0x100 * m);
    };
    vstd::arithmetic::div_mod::lemma_fundamental_div_mod_converse(v, 0x100, k1, b0);
    assert(k1 == k2 * 0x100 + h);
    vstd::arithmetic::div_mod::lemma_fundamental_div_mod_converse(k1, 0x100, k2, h);
    assert(k2 == e * 0x100 + m);
    vstd::arithmetic::div_mod::lemma_fundamental_div_mod_converse(k2, 0x100, e, m);
    vstd::arithmetic::div_mod::lemma_div_denominator(v, 0x100, 0x100);
    vstd::arithmetic::div_mod::lemma_div_denominator(v, 0x10000, 0x100);
    assert(v / 0x10000 == k2);
    assert(v / 0x1000000 == e);
    vstd::arithmetic::div_mod::lemma_small_mod(e as nat, 0x100);
}

/// An alarm only ever fires at the top of a minute: with a nonzero
/// seconds field nothing rings.
pub proof fn lemma_ring_only_at_second_zero(a: Alarm, dt: DateTime)
    ensures
        dt.sec != 0 ==> !a.spec_must_ring(dt),
{
}

/// A one-time alarm that fires is disabled afterwards and will not fire
/// again, at the same instant or any other.
pub proof fn lemma_one_time_self_disarm(a: Alarm, dt: DateTime, dt2: DateTime)
    requires
        a.spec_must_ring(dt),
        a.mode.spec_one_time(),
    ensures
        !a.spec_after_must_ring(dt).is_enable,
        !a.spec_after_must_ring(dt).spec_must_ring(dt2),
        a.spec_after_must_ring(dt).spec_after_must_ring(dt2) == a.spec_after_must_ring(dt),
{
}

/// An enabled alarm that is not one-time and selects no weekday neither
/// fires nor contributes a next-ring candidate.
pub proof fn lemma_empty_mode_never_rings(a: Alarm, dt: DateTime)
    requires
        !a.mode.spec_one_time(),
        !a.mode.spec_has_any_dow(),
    ensures
        !a.spec_must_ring(dt),
        a.spec_next_ring(dt) is None,
{
    lemma_no_dow(a.mode, dt.day_of_week);
    let b = a.mode.bits;
    assert(b & 0x80 == 0 && b & 0x7f == 0 ==> b == 0) by (bit_vector);
}

} // verus!
