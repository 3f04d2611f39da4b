use vstd::prelude::*;

verus! {

/// Whether `y` is a leap year of the proleptic Gregorian calendar.
pub open spec fn is_leap_year(y: int) -> bool {
    (y % 4 == 0 && y % 100 != 0) || y % 400 == 0
}

/// The number of days in month `m` (1 to 12) of year `y`.
pub open spec fn days_in_month(y: int, m: int) -> int {
    if m == 2 {
        if is_leap_year(y) { 29 } else { 28 }
    } else if m == 4 || m == 6 || m == 9 || m == 11 {
        30
    } else {
        31
    }
}

/// The decimal digit character for `d` in `0..10`.
pub open spec fn digit(d: int) -> char {
    seq!['0', '1', '2', '3', '4', '5', '6', '7', '8', '9'][d]
}

/// `n` (below 100) written with two digits, zero-padded.
pub open spec fn two_digits(n: int) -> Seq<char> {
    seq![digit(n / 10), digit(n % 10)]
}

/// `n` (below 10000) written with four digits, zero-padded.
pub open spec fn four_digits(n: int) -> Seq<char> {
    seq![digit(n / 1000), digit((n / 100) % 10), digit((n / 10) % 10), digit(n % 10)]
}

/// A local wall-clock time to the second, as the fields a display line shows.
pub struct Stamp {
    pub year: i32,
    pub month: u32,
    pub day: u32,
    pub hour: u32,
    pub minute: u32,
    pub second: u32,
}

impl Stamp {
    /// A real calendar date within the four-digit years, and a time of day.
    pub open spec fn wf(&self) -> bool {
        &&& 0 <= self.year <= 9999
        &&& 1 <= self.month <= 12
        &&& 1 <= self.day <= days_in_month(self.year as int, self.month as int)
        &&& self.hour < 24
        &&& self.minute < 60
        &&& self.second < 60
    }

    /// The stamp as `YYYY/MM/DD HH:MM:SS`.
    pub open spec fn text(&self) -> Seq<char> {
        four_digits(self.year as int) + seq!['/'] + two_digits(self.month as int) + seq!['/']
            + two_digits(self.day as int) + seq![' '] + two_digits(self.hour as int) + seq![':']
            + two_digits(self.minute as int) + seq![':'] + two_digits(self.second as int)
    }

    /// Builds a stamp from its fields; `None` where they name no valid time.
    pub fn new(year: i32, month: u32, day: u32, hour: u32, minute: u32, second: u32) -> (r: Option<
        Stamp,
    >)
        ensures
            r matches Some(s) ==> s.wf() && s.year == year && s.month == month && s.day == day
                && s.hour == hour && s.minute == minute && s.second == second,
            r is None ==> !(Stamp { year, month, day, hour, minute, second }).wf(),
    {
        if year < 0 || year > 9999 || month < 1 || month > 12 || day < 1 || hour >= 24 || minute
            >= 60 || second >= 60 {
            return None;
        }
        let leap = (year % 4 == 0 && year % 100 != 0) || year % 400 == 0;
        let last: u32 = if month == 2 {
            if leap { 29 } else { 28 }
        } else if month == 4 || month == 6 || month == 9 || month == 11 {
            30
        } else {
            31
        };
        if day > last {
            return None;
        }
        Some(Stamp { year, month, day, hour, minute, second })
    }

    /// The current local time; `None` where the clock reads a year outside
    /// `0..=9999`.
    pub fn now() -> (r: Option<Stamp>)
        ensures
            r matches Some(s) ==> s.wf(),
    {
        let (year, month, day, hour, minute, second) = local_now();
        Stamp::new(year, month, day, hour, minute, second)
    }

    /// The stamp as `YYYY/MM/DD HH:MM:SS`.
    pub fn to_text(&self) -> (r: String)
        requires
            self.wf(),
        ensures
            r@ == self.text(),
    {
        format_stamp(self)
    }
}

/// Relies on chrono's `Local::now` with the `Datelike` and `Timelike`
/// accessors: the fields of the local date and time, which chrono documents
/// as a month in 1..=12, a day in 1..=31, an hour below 24 and a minute and a
/// second below 60.
#[verifier::external_body]
fn local_now() -> (r: (i32, u32, u32, u32, u32, u32))
    ensures
        1 <= r.1 <= 12,
        1 <= r.2 <= 31,
        r.3 < 24,
        r.4 < 60,
        r.5 < 60,
{
    let now = chrono::Local::now();
    (
        chrono::Datelike::year(&now),
        chrono::Datelike::month(&now),
        chrono::Datelike::day(&now),
        chrono::Timelike::hour(&now),
        chrono::Timelike::minute(&now),
        chrono::Timelike::second(&now),
    )
}

/// Relies on chrono's `NaiveDate::from_ymd`, `NaiveDate::and_hms` and
/// `NaiveDateTime::format` with `%Y/%m/%d %H:%M:%S`: on a valid date and time
/// (so neither constructor panics) every field is written zero-padded, the
/// year with four digits when it lies in `0..=9999`.
#[verifier::external_body]
#[allow(deprecated)]
fn format_stamp(t: &Stamp) -> (r: String)
    requires
        t.wf(),
    ensures
        r@ == t.text(),
{
    let at = chrono::NaiveDate::from_ymd(t.year, t.month, t.day).and_hms(t.hour, t.minute, t.second);
    at.format("%Y/%m/%d %H:%M:%S").to_string()
}

} // verus!
