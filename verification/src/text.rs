//! Verified text formatting for the display: decimal numbers, zero- and
//! space-padded two-digit fields, hundredths rendering for the
//! environment readout, and the textual form of days and alarms.

use crate::alarm::{Alarm, Mode};
use crate::datetime::{DateTime, DayOfWeek};
use vstd::prelude::*;

verus! {

pub open spec fn digit_char(d: int) -> char {
    if d == 0 {
        '0'
    } else if d == 1 {
        '1'
    } else if d == 2 {
        '2'
    } else if d == 3 {
        '3'
    } else if d == 4 {
        '4'
    } else if d == 5 {
        '5'
    } else if d == 6 {
        '6'
    } else if d == 7 {
        '7'
    } else if d == 8 {
        '8'
    } else if d == 9 {
        '9'
    } else {
        '?'
    }
}

/// Decimal digits of a nonnegative number, most significant first.
pub open spec fn spec_dec(n: int) -> Seq<char>
    decreases n,
{
    if n < 10 {
        seq![digit_char(n)]
    } else {
        spec_dec(n / 10).push(digit_char(n % 10))
    }
}

/// Two-digit field, zero-padded.
pub open spec fn spec_dec2(n: int) -> Seq<char> {
    if n < 10 {
        "0"@ + seq![digit_char(n)]
    } else {
        spec_dec(n)
    }
}

/// Two-digit field, space-padded.
pub open spec fn spec_pad2(n: int) -> Seq<char> {
    if n < 10 {
        " "@ + seq![digit_char(n)]
    } else {
        spec_dec(n)
    }
}

/// A count of hundredths printed as a signed decimal with two places,
/// as the environment readout shows temperature and pressure.
pub open spec fn spec_centi(x: int) -> Seq<char> {
    let mag = if x < 0 {
        -x
    } else {
        x
    };
    (if x < 0 {
        "-"@
    } else {
        Seq::<char>::empty()
    }) + spec_dec(mag / 100) + "."@ + spec_dec2(mag % 100)
}

/// How many digits `spec_dec` yields, with the bounds the layout needs.
pub proof fn lemma_dec_len(n: int)
    requires
        0 <= n,
    ensures
        1 <= spec_dec(n).len(),
        n < 10 ==> spec_dec(n).len() == 1,
        10 <= n < 100 ==> spec_dec(n).len() == 2,
        n < 100 ==> spec_dec(n).len() <= 2,
        n < 1000 ==> spec_dec(n).len() <= 3,
        n < 10000 ==> spec_dec(n).len() <= 4,
        n < 100000 ==> spec_dec(n).len() <= 5,
        n < 1000000 ==> spec_dec(n).len() <= 6,
        n < 10000000 ==> spec_dec(n).len() <= 7,
        n < 100000000 ==> spec_dec(n).len() <= 8,
        n < 1000000000 ==> spec_dec(n).len() <= 9,
        n < 10000000000 ==> spec_dec(n).len() <= 10,
    decreases n,
{
    if n >= 10 {
        lemma_dec_len(n / 10);
    }
}

fn digit_str(d: u32) -> (s: &'static str)
    requires
        d < 10,
    ensures
        s@ == seq![digit_char(d as int)],
{
    proof {
        reveal_strlit("0");
        reveal_strlit("1");
        reveal_strlit("2");
        reveal_strlit("3");
        reveal_strlit("4");
        reveal_strlit("5");
        reveal_strlit("6");
        reveal_strlit("7");
        reveal_strlit("8");
        reveal_strlit("9");
    }
    match d {
        0 => "0",
        1 => "1",
        2 => "2",
        3 => "3",
        4 => "4",
        5 => "5",
        6 => "6",
        7 => "7",
        8 => "8",
        _ => "9",
    }
}

pub fn fmt_u32(n: u32) -> (s: String)
    ensures
        s@ == spec_dec(n as int),
    decreases n,
{
    if n < 10 {
        String::from_str(digit_str(n))
    } else {
        proof {
            assert(n / 10 < n) by (nonlinear_arith)
                requires
                    n >= 10,
            ;
        }
        let mut s = fmt_u32(n / 10);
        s.append(digit_str(n % 10));
        s
    }
}

/// Number of characters `fmt_u32` produces.
pub fn dec_len(n: u32) -> (l: u32)
    ensures
        l == spec_dec(n as int).len(),
        1 <= l <= 10,
    decreases n,
{
    if n < 10 {
        1
    } else {
        proof {
            assert(n / 10 < n) by (nonlinear_arith)
                requires
                    n >= 10,
            ;
            lemma_dec_len(n as int);
        }
        1 + dec_len(n / 10)
    }
}

pub fn fmt_u32_pad2(n: u32) -> (s: String)
    ensures
        s@ == spec_dec2(n as int),
{
    if n < 10 {
        let mut s = String::from_str("0");
        s.append(digit_str(n));
        s
    } else {
        fmt_u32(n)
    }
}

pub fn fmt_u32_spaces2(n: u32) -> (s: String)
    ensures
        s@ == spec_pad2(n as int),
{
    if n < 10 {
        let mut s = String::from_str(" ");
        s.append(digit_str(n));
        s
    } else {
        fmt_u32(n)
    }
}

pub fn fmt_centi(x: i32) -> (s: String)
    ensures
        s@ == spec_centi(x as int),
{
    let mag: u32 = if x >= 0 {
        x as u32
    } else {
        (-(x as i64)) as u32
    };
    let mut s = if x < 0 {
        String::from_str("-")
    } else {
        String::new()
    };
    s.append(fmt_u32(mag / 100).as_str());
    s.append(".");
    s.append(fmt_u32_pad2(mag % 100).as_str());
    s
}

/// Number of characters `fmt_centi` produces.
pub fn centi_len(x: i32) -> (l: u32)
    ensures
        l == spec_centi(x as int).len(),
        l <= 14,
{
    let mag: u32 = if x >= 0 {
        x as u32
    } else {
        (-(x as i64)) as u32
    };
    proof {
        lemma_dec_len((mag / 100) as int);
        lemma_dec_len((mag % 100) as int);
        reveal_strlit("-");
        reveal_strlit(".");
        reveal_strlit("0");
    }
    let sign: u32 = if x < 0 {
        1
    } else {
        0
    };
    sign + dec_len(mag / 100) + 3
}

pub open spec fn spec_dow_name(d: DayOfWeek) -> Seq<char> {
    match d {
        DayOfWeek::Monday => "Monday"@,
        DayOfWeek::Tuesday => "Tuesday"@,
        DayOfWeek::Wednesday => "Wednesday"@,
        DayOfWeek::Thursday => "Thursday"@,
        DayOfWeek::Friday => "Friday"@,
        DayOfWeek::Saturday => "Saturday"@,
        DayOfWeek::Sunday => "Sunday"@,
    }
}

pub fn dow_name(d: DayOfWeek) -> (s: &'static str)
    ensures
        s@ == spec_dow_name(d),
{
    match d {
        DayOfWeek::Monday => "Monday",
        DayOfWeek::Tuesday => "Tuesday",
        DayOfWeek::Wednesday => "Wednesday",
        DayOfWeek::Thursday => "Thursday",
        DayOfWeek::Friday => "Friday",
        DayOfWeek::Saturday => "Saturday",
        DayOfWeek::Sunday => "Sunday",
    }
}

/// One date/time written out in full, weekday included.
pub open spec fn spec_datetime_text(dt: DateTime) -> Seq<char> {
    spec_dec(dt.year as int) + "-"@ + spec_dec2(dt.month as int) + "-"@ + spec_dec2(dt.day as int)
        + " "@ + spec_dec2(dt.hour as int) + ":"@ + spec_dec2(dt.min as int) + ":"@ + spec_dec2(
        dt.sec as int,
    ) + " ("@ + spec_dow_name(dt.day_of_week) + ")"@
}

impl DateTime {
    pub fn to_text(&self) -> (s: String)
        ensures
            s@ == spec_datetime_text(*self),
    {
        let mut s = fmt_u32(self.year as u32);
        s.append("-");
        s.append(fmt_u32_pad2(self.month as u32).as_str());
        s.append("-");
        s.append(fmt_u32_pad2(self.day as u32).as_str());
        s.append(" ");
        s.append(fmt_u32_pad2(self.hour as u32).as_str());
        s.append(":");
        s.append(fmt_u32_pad2(self.min as u32).as_str());
        s.append(":");
        s.append(fmt_u32_pad2(self.sec as u32).as_str());
        s.append(" (");
        s.append(dow_name(self.day_of_week));
        s.append(")");
        s
    }
}

/// The list of short weekday names a repeating alarm's text shows.
pub open spec fn spec_day_suffix(m: Mode) -> Seq<char> {
    (if m.spec_contains_dow(DayOfWeek::Monday) {
        " Mo"@
    } else {
        Seq::<char>::empty()
    }) + (if m.spec_contains_dow(DayOfWeek::Tuesday) {
        " Tu"@
    } else {
        Seq::<char>::empty()
    }) + (if m.spec_contains_dow(DayOfWeek::Wednesday) {
        " We"@
    } else {
        Seq::<char>::empty()
    }) + (if m.spec_contains_dow(DayOfWeek::Thursday) {
        " Th"@
    } else {
        Seq::<char>::empty()
    }) + (if m.spec_contains_dow(DayOfWeek::Friday) {
        " Fr"@
    } else {
        Seq::<char>::empty()
    }) + (if m.spec_contains_dow(DayOfWeek::Saturday) {
        " Sa"@
    } else {
        Seq::<char>::empty()
    }) + (if m.spec_contains_dow(DayOfWeek::Sunday) {
        " Su"@
    } else {
        Seq::<char>::empty()
    })
}

/// One alarm's line in the alarm list: enabled marker, time of day, and
/// either the one-time marker, "never", or the selected weekdays.
pub open spec fn spec_alarm_text(a: Alarm) -> Seq<char> {
    (if a.is_enable {
        "On  "@
    } else {
        "Off "@
    }) + spec_dec2(a.hour as int) + ":"@ + spec_dec2(a.min as int) + (if a.mode.spec_one_time() {
        " one time"@
    } else if a.mode.spec_is_empty() {
        " never"@
    } else {
        spec_day_suffix(a.mode)
    })
}

fn day_suffix(m: Mode) -> (s: String)
    ensures
        s@ == spec_day_suffix(m),
{
    let ghost t1 = if m.spec_contains_dow(DayOfWeek::Monday) {
        " Mo"@
    } else {
        Seq::<char>::empty()
    };
    let ghost t2 = if m.spec_contains_dow(DayOfWeek::Tuesday) {
        " Tu"@
    } else {
        Seq::<char>::empty()
    };
    let ghost t3 = if m.spec_contains_dow(DayOfWeek::Wednesday) {
        " We"@
    } else {
        Seq::<char>::empty()
    };
    let ghost t4 = if m.spec_contains_dow(DayOfWeek::Thursday) {
        " Th"@
    } else {
        Seq::<char>::empty()
    };
    let ghost t5 = if m.spec_contains_dow(DayOfWeek::Friday) {
        " Fr"@
    } else {
        Seq::<char>::empty()
    };
    let ghost t6 = if m.spec_contains_dow(DayOfWeek::Saturday) {
        " Sa"@
    } else {
        Seq::<char>::empty()
    };
    let ghost t7 = if m.spec_contains_dow(DayOfWeek::Sunday) {
        " Su"@
    } else {
        Seq::<char>::empty()
    };
    let mut s = String::new();
    if m.contains_dow(DayOfWeek::Monday) {
        s.append(" Mo");
    }
    assert(s@ =~= t1);
    if m.contains_dow(DayOfWeek::Tuesday) {
        s.append(" Tu");
    }
    assert(s@ =~= t1 + t2);
    if m.contains_dow(DayOfWeek::Wednesday) {
        s.append(" We");
    }
    assert(s@ =~= t1 + t2 + t3);
    if m.contains_dow(DayOfWeek::Thursday) {
        s.append(" Th");
    }
    assert(s@ =~= t1 + t2 + t3 + t4);
    if m.contains_dow(DayOfWeek::Friday) {
        s.append(" Fr");
    }
    assert(s@ =~= t1 + t2 + t3 + t4 + t5);
    if m.contains_dow(DayOfWeek::Saturday) {
        s.append(" Sa");
    }
    assert(s@ =~= t1 + t2 + t3 + t4 + t5 + t6);
    if m.contains_dow(DayOfWeek::Sunday) {
        s.append(" Su");
    }
    assert(s@ =~= t1 + t2 + t3 + t4 + t5 + t6 + t7);
    s
}

impl Alarm {
    pub fn to_text(&self) -> (s: String)
        ensures
            s@ == spec_alarm_text(*self),
    {
        let ghost head = (if self.is_enable {
            "On  "@
        } else {
            "Off "@
        }) + spec_dec2(self.hour as int) + ":"@ + spec_dec2(self.min as int);
        let mut s = if self.is_enable {
            String::from_str("On  ")
        } else {
            String::from_str("Off ")
        };
        s.append(fmt_u32_pad2(self.hour as u32).as_str());
        s.append(":");
        s.append(fmt_u32_pad2(self.min as u32).as_str());
        assert(s@ =~= head);
        if self.mode.is_one_time() {
            s.append(" one time");
        } else if self.mode.is_empty() {
            s.append(" never");
        } else {
            s.append(day_suffix(self.mode).as_str());
        }
        s
    }
}

} // verus!
