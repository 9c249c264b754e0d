//! Calendar timestamps without a time zone, as the store keeps them.

use vstd::prelude::*;

verus! {

/// The first year chrono has dates in.
pub const MIN_YEAR: i32 = -262143;

/// The last year chrono has dates in.
pub const MAX_YEAR: i32 = 262142;

/// The components of a date and time of day, as plain numbers.
pub struct Civil {
    pub year: i32,
    pub month: u32,
    pub day: u32,
    pub hour: u32,
    pub minute: u32,
    pub second: u32,
    pub nano: u32,
}

/// Whether a year of the Gregorian calendar, carried back before its
/// introduction, has a 29th of February. Year 0 is the year before year 1.
pub open spec fn is_leap_year(year: int) -> bool {
    year % 4 == 0 && (year % 100 != 0 || year % 400 == 0)
}

/// How many days a month has; meaningful for months 1 to 12.
pub open spec fn days_in_month(year: int, month: int) -> int {
    if month == 2 {
        if is_leap_year(year) {
            29
        } else {
            28
        }
    } else if month == 4 || month == 6 || month == 9 || month == 11 {
        30
    } else {
        31
    }
}

/// Whether the calendar has this day, within the years chrono covers.
pub open spec fn is_date(year: int, month: int, day: int) -> bool {
    &&& MIN_YEAR <= year <= MAX_YEAR
    &&& 1 <= month <= 12
    &&& 1 <= day <= days_in_month(year, month)
}

/// Whether this is a time of day. Nanoseconds of a billion and more stand
/// for a leap second and go with second 59 only.
pub open spec fn is_time_of_day(hour: int, minute: int, second: int, nano: int) -> bool {
    &&& 0 <= hour < 24
    &&& 0 <= minute < 60
    &&& 0 <= second < 60
    &&& 0 <= nano < 2_000_000_000
    &&& (nano < 1_000_000_000 || second == 59)
}

/// The text chrono prints for the date and time with these components;
/// meaningful where they are a date and a time of day.
pub uninterp spec fn civil_text(
    year: i32,
    month: u32,
    day: u32,
    hour: u32,
    minute: u32,
    second: u32,
    nano: u32,
) -> Seq<char>;

/// Builds a `chrono::NaiveDateTime` with `NaiveDate::from_ymd_opt` and
/// `NaiveDate::and_hms_nano_opt` and prints it in its `Debug` form, which is
/// also the form chrono serializes. Nothing is proved of this. The contract
/// claims what chrono documents of the two constructors: the first returns
/// a date exactly for the days the calendar has in the years `MIN_YEAR` to
/// `MAX_YEAR`, the second a time exactly for hour, minute and second in
/// range and nanoseconds below two billion, those of a billion and more
/// with second 59 only. It gives the printed text a name, `civil_text`,
/// which is sound because printing depends on the seven numbers alone.
#[verifier::external_body]
fn print_civil(
    year: i32,
    month: u32,
    day: u32,
    hour: u32,
    minute: u32,
    second: u32,
    nano: u32,
) -> (r: Option<String>)
    ensures
        r is Some <==> (Civil { year, month, day, hour, minute, second, nano }).is_known(),
        r matches Some(t) ==> t@ == civil_text(year, month, day, hour, minute, second, nano),
{
    let date = chrono::NaiveDate::from_ymd_opt(year, month, day)?;
    let stamp = date.and_hms_nano_opt(hour, minute, second, nano)?;
    Some(format!("{:?}", stamp))
}

/// A day the calendar has and a time of day.
#[derive(Clone, Copy, Debug, PartialEq, Eq)]
pub struct Timestamp {
    year: i32,
    month: u32,
    day: u32,
    hour: u32,
    minute: u32,
    second: u32,
    nano: u32,
}

impl View for Timestamp {
    type V = Civil;

    closed spec fn view(&self) -> Civil {
        Civil {
            year: self.year,
            month: self.month,
            day: self.day,
            hour: self.hour,
            minute: self.minute,
            second: self.second,
            nano: self.nano,
        }
    }
}

impl Civil {
    /// Whether the components are a day the calendar has and a time of day.
    pub open spec fn is_known(self) -> bool {
        &&& is_date(self.year as int, self.month as int, self.day as int)
        &&& is_time_of_day(
            self.hour as int,
            self.minute as int,
            self.second as int,
            self.nano as int,
        )
    }

    /// The printed form; meaningful where `is_known` holds.
    pub open spec fn text(self) -> Seq<char> {
        civil_text(
            self.year,
            self.month,
            self.day,
            self.hour,
            self.minute,
            self.second,
            self.nano,
        )
    }
}

impl Timestamp {
    #[verifier::type_invariant]
    spec fn is_known(self) -> bool {
        self@.is_known()
    }

    /// The timestamp with the given components, where they are a day the
    /// calendar has and a time of day.
    pub fn new(
        year: i32,
        month: u32,
        day: u32,
        hour: u32,
        minute: u32,
        second: u32,
        nano: u32,
    ) -> (r: Option<Timestamp>)
        ensures
            r is Some <==> (Civil { year, month, day, hour, minute, second, nano }).is_known(),
            r matches Some(t) ==> t@ == (Civil { year, month, day, hour, minute, second, nano }),
    {
        match print_civil(year, month, day, hour, minute, second, nano) {
            Some(_) => Some(Timestamp { year, month, day, hour, minute, second, nano }),
            None => None,
        }
    }

    /// The printed form, `YYYY-MM-DDTHH:MM:SS` with a fraction where the
    /// nanoseconds are not zero.
    pub fn text(&self) -> (r: String)
        ensures
            self@.is_known(),
            r@ == self@.text(),
    {
        proof {
            use_type_invariant(self);
        }
        match print_civil(
            self.year,
            self.month,
            self.day,
            self.hour,
            self.minute,
            self.second,
            self.nano,
        ) {
            Some(t) => t,
            None => vstd::pervasive::unreached(),
        }
    }

    pub fn year(&self) -> (r: i32)
        ensures
            r == self@.year,
    {
        self.year
    }

    pub fn month(&self) -> (r: u32)
        ensures
            r == self@.month,
    {
        self.month
    }

    pub fn day(&self) -> (r: u32)
        ensures
            r == self@.day,
    {
        self.day
    }

    pub fn hour(&self) -> (r: u32)
        ensures
            r == self@.hour,
    {
        self.hour
    }

    pub fn minute(&self) -> (r: u32)
        ensures
            r == self@.minute,
    {
        self.minute
    }

    pub fn second(&self) -> (r: u32)
        ensures
            r == self@.second,
    {
        self.second
    }

    /// Nanoseconds within the second; a billion or more inside a leap second.
    pub fn nano(&self) -> (r: u32)
        ensures
            r == self@.nano,
    {
        self.nano
    }
}

} // verus!
