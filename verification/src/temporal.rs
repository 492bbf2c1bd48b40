use vstd::prelude::*;

verus! {

/// A calendar date in the proleptic Gregorian calendar, held as plain
/// year, month and day numbers.
///
/// Producers hand the crate already valid dates; [`TeonDate::valid`]
/// states what valid means (a real calendar day with a four-digit year,
/// so the rendered form is always `YYYY-MM-DD`).
#[derive(Debug, Clone, Copy, PartialEq, Eq, Structural)]
pub struct TeonDate {
    pub year: u32,
    pub month: u32,
    pub day: u32,
}

/// A UTC timestamp with millisecond precision, as a valid date plus a
/// time of day.
#[derive(Debug, Clone, Copy, PartialEq, Eq, Structural)]
pub struct TeonDateTime {
    pub date: TeonDate,
    pub hour: u32,
    pub minute: u32,
    pub second: u32,
    pub millisecond: u32,
}

/// Whether a year is a leap year in the Gregorian calendar.
pub open spec fn spec_is_leap_year(y: int) -> bool {
    (y % 4 == 0 && y % 100 != 0) || y % 400 == 0
}

/// The number of days in a month of a given year.
pub open spec fn spec_days_in_month(y: int, m: int) -> int {
    if m == 2 {
        if spec_is_leap_year(y) {
            29
        } else {
            28
        }
    } else if m == 4 || m == 6 || m == 9 || m == 11 {
        30
    } else {
        31
    }
}

impl TeonDate {
    /// A real calendar day whose year renders in four digits.
    pub open spec fn valid(&self) -> bool {
        &&& self.year <= 9999
        &&& 1 <= self.month <= 12
        &&& 1 <= self.day <= spec_days_in_month(self.year as int, self.month as int)
    }

    /// The key `(year, month, day)` whose lexicographic order is the
    /// calendar order.
    pub open spec fn key(&self) -> (int, int, int) {
        (self.year as int, self.month as int, self.day as int)
    }

    pub fn new(year: u32, month: u32, day: u32) -> (r: Option<TeonDate>)
        ensures
            r matches Some(d) ==> d == (TeonDate { year, month, day }) && d.valid(),
            r is None <==> !(TeonDate { year, month, day }).valid(),
    {
        let d = TeonDate { year, month, day };
        if d.check_valid() {
            Some(d)
        } else {
            None
        }
    }

    /// Runtime check of [`TeonDate::valid`].
    pub fn check_valid(&self) -> (r: bool)
        ensures
            r == self.valid(),
    {
        self.year <= 9999 && 1 <= self.month && self.month <= 12 && 1 <= self.day
            && self.day <= days_in_month(self.year, self.month)
    }

    /// Calendar comparison: negative, zero or positive as `self` falls
    /// before, on or after `other`.
    pub fn compare(&self, other: &TeonDate) -> (r: i8)
        ensures
            r as int == spec_cmp3(self.key(), other.key()),
    {
        if self.year != other.year {
            if self.year < other.year { -1 } else { 1 }
        } else if self.month != other.month {
            if self.month < other.month { -1 } else { 1 }
        } else if self.day != other.day {
            if self.day < other.day { -1 } else { 1 }
        } else {
            0
        }
    }
}

/// Sign of the lexicographic comparison of two `(year, month, day)` keys.
pub open spec fn spec_cmp3(a: (int, int, int), b: (int, int, int)) -> int {
    if a.0 != b.0 {
        if a.0 < b.0 { -1int } else { 1int }
    } else if a.1 != b.1 {
        if a.1 < b.1 { -1int } else { 1int }
    } else if a.2 != b.2 {
        if a.2 < b.2 { -1int } else { 1int }
    } else {
        0int
    }
}

/// The `YYYY-MM-DD` rendering of a date.
pub open spec fn spec_date_str(d: TeonDate) -> Seq<char> {
    crate::strings::spec_dec_str_pad(d.year as nat, 4) + "-"@ + crate::strings::spec_dec_str_pad(
        d.month as nat,
        2,
    ) + "-"@ + crate::strings::spec_dec_str_pad(d.day as nat, 2)
}

/// The RFC 3339 rendering of a UTC timestamp at millisecond precision,
/// `YYYY-MM-DDTHH:MM:SS.mmmZ`.
pub open spec fn spec_datetime_str(d: TeonDateTime) -> Seq<char> {
    spec_date_str(d.date) + "T"@ + crate::strings::spec_dec_str_pad(d.hour as nat, 2) + ":"@
        + crate::strings::spec_dec_str_pad(d.minute as nat, 2) + ":"@
        + crate::strings::spec_dec_str_pad(d.second as nat, 2) + "."@
        + crate::strings::spec_dec_str_pad(d.millisecond as nat, 3) + "Z"@
}

/// Appends the `YYYY-MM-DD` rendering of a date.
pub fn append_date(out: &mut String, d: &TeonDate)
    ensures
        final(out)@ == old(out)@ + spec_date_str(*d),
{
    crate::strings::append_padded(out, d.year as u64, 4);
    crate::strings::push_char(out, '-');
    crate::strings::append_padded(out, d.month as u64, 2);
    crate::strings::push_char(out, '-');
    crate::strings::append_padded(out, d.day as u64, 2);
    proof {
        reveal_strlit("-");
        assert(out@ =~= old(out)@ + spec_date_str(*d));
    }
}

/// Appends the RFC 3339 rendering of a timestamp.
pub fn append_datetime(out: &mut String, d: &TeonDateTime)
    ensures
        final(out)@ == old(out)@ + spec_datetime_str(*d),
{
    append_date(out, &d.date);
    crate::strings::push_char(out, 'T');
    crate::strings::append_padded(out, d.hour as u64, 2);
    crate::strings::push_char(out, ':');
    crate::strings::append_padded(out, d.minute as u64, 2);
    crate::strings::push_char(out, ':');
    crate::strings::append_padded(out, d.second as u64, 2);
    crate::strings::push_char(out, '.');
    crate::strings::append_padded(out, d.millisecond as u64, 3);
    crate::strings::push_char(out, 'Z');
    proof {
        reveal_strlit("T");
        reveal_strlit(":");
        reveal_strlit(".");
        reveal_strlit("Z");
        assert(out@ =~= old(out)@ + spec_datetime_str(*d));
    }
}

/// Runtime form of [`spec_days_in_month`].
pub fn days_in_month(y: u32, m: u32) -> (r: u32)
    ensures
        r as int == spec_days_in_month(y as int, m as int),
{
    if m == 2 {
        if (y % 4 == 0 && y % 100 != 0) || y % 400 == 0 {
            29
        } else {
            28
        }
    } else if m == 4 || m == 6 || m == 9 || m == 11 {
        30
    } else {
        31
    }
}

impl TeonDateTime {
    /// A valid date with a time of day in range.
    pub open spec fn valid(&self) -> bool {
        &&& self.date.valid()
        &&& self.hour <= 23
        &&& self.minute <= 59
        &&& self.second <= 59
        &&& self.millisecond <= 999
    }

    /// Sign of the timeline comparison of two timestamps: date first,
    /// then hour, minute, second and millisecond.
    pub open spec fn spec_cmp(&self, other: &TeonDateTime) -> int {
        if self.date.key() != other.date.key() {
            spec_cmp3(self.date.key(), other.date.key())
        } else if self.hour != other.hour {
            if self.hour < other.hour { -1int } else { 1int }
        } else if self.minute != other.minute {
            if self.minute < other.minute { -1int } else { 1int }
        } else if self.second != other.second {
            if self.second < other.second { -1int } else { 1int }
        } else if self.millisecond != other.millisecond {
            if self.millisecond < other.millisecond { -1int } else { 1int }
        } else {
            0int
        }
    }

    pub fn new(date: TeonDate, hour: u32, minute: u32, second: u32, millisecond: u32) -> (r:
        Option<TeonDateTime>)
        ensures
            r matches Some(d) ==> d == (TeonDateTime { date, hour, minute, second, millisecond })
                && d.valid(),
            r is None <==> !(TeonDateTime { date, hour, minute, second, millisecond }).valid(),
    {
        let d = TeonDateTime { date, hour, minute, second, millisecond };
        if d.check_valid() {
            Some(d)
        } else {
            None
        }
    }

    /// Runtime check of [`TeonDateTime::valid`].
    pub fn check_valid(&self) -> (r: bool)
        ensures
            r == self.valid(),
    {
        self.date.check_valid() && self.hour <= 23 && self.minute <= 59 && self.second <= 59
            && self.millisecond <= 999
    }

    /// Timeline comparison: negative, zero or positive as `self` falls
    /// before, on or after `other`.
    pub fn compare(&self, other: &TeonDateTime) -> (r: i8)
        ensures
            r as int == self.spec_cmp(other),
    {
        let d = self.date.compare(&other.date);
        if d != 0 {
            d
        } else if self.hour != other.hour {
            if self.hour < other.hour { -1 } else { 1 }
        } else if self.minute != other.minute {
            if self.minute < other.minute { -1 } else { 1 }
        } else if self.second != other.second {
            if self.second < other.second { -1 } else { 1 }
        } else if self.millisecond != other.millisecond {
            if self.millisecond < other.millisecond { -1 } else { 1 }
        } else {
            0
        }
    }
}

} // verus!
