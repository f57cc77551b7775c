//! A calendar date held as plain year, month and day numbers, with its ISO
//! `YYYY-MM-DD` rendering, and the current date obtained through chrono.
use vstd::prelude::*;

verus! {

/// A calendar date as plain numbers. Validity is the `wf` predicate.
#[derive(Clone, Copy, PartialEq, Eq, Structural, Debug)]
pub struct Date {
    pub year: u16,
    pub month: u8,
    pub day: u8,
}

/// The decimal digit character for `d`.
pub open spec fn digit(d: int) -> char {
    if d == 0 {
        '0'
    } else if d == 1 {
        '1'
    } else if d == 2 {
        '2'
    } else if d == 3 {
        '3'
    } else if d == 4 {
        '4'
    } else if d == 5 {
        '5'
    } else if d == 6 {
        '6'
    } else if d == 7 {
        '7'
    } else if d == 8 {
        '8'
    } else {
        '9'
    }
}

/// The ISO `YYYY-MM-DD` rendering of a date, zero-padded.
pub open spec fn iso_date_spec(d: Date) -> Seq<char> {
    seq![
        digit(d.year as int / 1000),
        digit((d.year as int / 100) % 10),
        digit((d.year as int / 10) % 10),
        digit(d.year as int % 10),
        '-',
        digit(d.month as int / 10),
        digit(d.month as int % 10),
        '-',
        digit(d.day as int / 10),
        digit(d.day as int % 10),
    ]
}

/// The decimal digit character for `x`.
fn digit_str(x: u16) -> (r: &'static str)
    requires
        x < 10,
    ensures
        r@.len() == 1,
        r@[0] == digit(x as int),
{
    proof {
        reveal_strlit("0");
        reveal_strlit("1");
        reveal_strlit("2");
        reveal_strlit("3");
        reveal_strlit("4");
        reveal_strlit("5");
        reveal_strlit("6");
        reveal_strlit("7");
        reveal_strlit("8");
        reveal_strlit("9");
    }
    match x {
        0 => "0",
        1 => "1",
        2 => "2",
        3 => "3",
        4 => "4",
        5 => "5",
        6 => "6",
        7 => "7",
        8 => "8",
        _ => "9",
    }
}

impl Date {
    /// A date whose fields lie in the calendar ranges.
    pub open spec fn wf(self) -> bool {
        self.year <= 9999 && 1 <= self.month <= 12 && 1 <= self.day <= 31
    }

    /// Build a date from numbers already known to be in range.
    pub fn new(year: u16, month: u8, day: u8) -> (r: Date)
        requires
            year <= 9999,
            1 <= month <= 12,
            1 <= day <= 31,
        ensures
            r == (Date { year, month, day }),
            r.wf(),
    {
        Date { year, month, day }
    }

    /// Build a date from unchecked numbers; `Some` exactly when they lie in
    /// the calendar ranges.
    pub fn from_parts(year: i32, month: u32, day: u32) -> (r: Option<Date>)
        ensures
            (0 <= year <= 9999 && 1 <= month <= 12 && 1 <= day <= 31) <==> r is Some,
            (match r {
                Some(d) => d.year == year && d.month == month && d.day == day && d.wf(),
                None => true,
            }),
    {
        if 0 <= year && year <= 9999 && 1 <= month && month <= 12 && 1 <= day && day <= 31 {
            Some(Date { year: year as u16, month: month as u8, day: day as u8 })
        } else {
            None
        }
    }

    /// The ISO `YYYY-MM-DD` rendering of this date.
    pub fn iso_string(&self) -> (r: String)
        requires
            self.wf(),
        ensures
            r@ == iso_date_spec(*self),
    {
        let y = self.year;
        let m = self.month as u16;
        let d = self.day as u16;
        let mut s = String::new();
        s.append(digit_str(y / 1000));
        s.append(digit_str((y / 100) % 10));
        s.append(digit_str((y / 10) % 10));
        s.append(digit_str(y % 10));
        s.append("-");
        s.append(digit_str(m / 10));
        s.append(digit_str(m % 10));
        s.append("-");
        s.append(digit_str(d / 10));
        s.append(digit_str(d % 10));
        proof {
            reveal_strlit("-");
            assert(s@ =~= iso_date_spec(*self));
        }
        s
    }
}

/// Relies on chrono: `DateTime::from_timestamp` turns seconds since the Unix
/// epoch into a UTC date, `None` when out of range, and `Datelike::month`
/// lies in `1..=12`, `Datelike::day` in `1..=31`. A clock before the epoch or
/// beyond chrono's range gives `None`, never a panic.
#[verifier::external_body]
fn now_ymd() -> (r: Option<(i32, u32, u32)>)
    ensures
        (r matches Some(t) ==> 1 <= t.1 <= 12 && 1 <= t.2 <= 31),
{
    let since_epoch = match std::time::SystemTime::now().duration_since(std::time::UNIX_EPOCH) {
        Ok(d) => d,
        Err(_) => return None,
    };
    let secs = match i64::try_from(since_epoch.as_secs()) {
        Ok(s) => s,
        Err(_) => return None,
    };
    let now = chrono::DateTime::from_timestamp(secs, 0)?;
    Some((chrono::Datelike::year(&now), chrono::Datelike::month(&now), chrono::Datelike::day(&now)))
}

/// Today's date in UTC; a clock the calendar cannot place falls back to the
/// epoch.
pub fn current_date() -> (r: Date)
    ensures
        r.wf(),
{
    match now_ymd() {
        Some((y, m, d)) => match Date::from_parts(y, m, d) {
            Some(date) => date,
            None => Date::new(1970, 1, 1),
        },
        None => Date::new(1970, 1, 1),
    }
}

} // verus!
