//! The encodings of the time and of the day of the week in a collision record.

use vstd::prelude::*;

verus! {

/// A time of day, to the second.
#[derive(Clone, Copy, PartialEq, Eq, Debug, Structural)]
pub struct TimeOfDay {
    pub hour: u8,
    pub minute: u8,
    pub second: u8,
}

#[derive(Clone, Copy, PartialEq, Eq, Debug, Structural)]
pub enum Weekday {
    Monday,
    Tuesday,
    Wednesday,
    Thursday,
    Friday,
    Saturday,
    Sunday,
}

/// Why a field of a record could not be read.
#[derive(Clone, Copy, PartialEq, Eq, Debug, Structural)]
pub enum FieldError {
    /// The last two digits of a time are 60 or more.
    Minute(usize),
    /// A day of the week is more than 7.
    Day(usize),
}

impl TimeOfDay {
    /// The hour is below 24, the minute and the second below 60.
    pub open spec fn valid(self) -> bool {
        self.hour < 24 && self.minute < 60 && self.second < 60
    }
}

/// The time that a number stands for: its last two digits are the minute, the
/// digits before them the hour. A number above 2359 stands for midnight.
pub open spec fn time_of(time: int) -> Option<TimeOfDay> {
    if time > 2359 {
        Some(TimeOfDay { hour: 0, minute: 0, second: 0 })
    } else if time % 100 >= 60 {
        None
    } else {
        Some(TimeOfDay { hour: (time / 100) as u8, minute: (time % 100) as u8, second: 0 })
    }
}

/// The day that comes `n` days after a Saturday.
pub open spec fn days_after_saturday(n: int) -> Weekday {
    let r = n % 7;
    if r == 0 {
        Weekday::Saturday
    } else if r == 1 {
        Weekday::Sunday
    } else if r == 2 {
        Weekday::Monday
    } else if r == 3 {
        Weekday::Tuesday
    } else if r == 4 {
        Weekday::Wednesday
    } else if r == 5 {
        Weekday::Thursday
    } else {
        Weekday::Friday
    }
}

/// Reads a time from a number of the form 1230, for 12:30, or 130, for 1:30.
pub fn parse_time(time: usize) -> (r: Result<TimeOfDay, FieldError>)
    ensures
        match time_of(time as int) {
            Some(t) => r == Ok::<TimeOfDay, FieldError>(t),
            None => r == Err::<TimeOfDay, FieldError>(FieldError::Minute(time)),
        },
        r is Ok ==> r->Ok_0.valid(),
{
    if time > 2359 {
        return Ok(TimeOfDay { hour: 0, minute: 0, second: 0 });
    }
    let minute: usize = time % 100;
    let hour: usize = time / 100;
    if minute >= 60 {
        return Err(FieldError::Minute(time));
    }
    Ok(TimeOfDay { hour: hour as u8, minute: minute as u8, second: 0 })
}

/// Reads the day of the week from its number: 1 is Sunday, 7 is Saturday, and
/// so is 0.
pub fn parse_weekday(day: usize) -> (r: Result<Weekday, FieldError>)
    ensures
        day <= 7 ==> r == Ok::<Weekday, FieldError>(days_after_saturday(day as int)),
        day > 7 ==> r == Err::<Weekday, FieldError>(FieldError::Day(day)),
{
    if day > 7 {
        return Err(FieldError::Day(day));
    }
    let r: usize = day % 7;
    if r == 0 {
        Ok(Weekday::Saturday)
    } else if r == 1 {
        Ok(Weekday::Sunday)
    } else if r == 2 {
        Ok(Weekday::Monday)
    } else if r == 3 {
        Ok(Weekday::Tuesday)
    } else if r == 4 {
        Ok(Weekday::Wednesday)
    } else if r == 5 {
        Ok(Weekday::Thursday)
    } else {
        Ok(Weekday::Friday)
    }
}

} // verus!
