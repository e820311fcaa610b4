//! Clocks that are asked field by field, and timestamps read from them.

pub mod dos_date_time_retriever_adapter;
pub mod fake_time_retriever;

use vstd::prelude::*;

verus! {

/// A clock that tells the calendar time of the moment, one field at a call.
pub trait SystemTimeRetriever {
    /// The hour of the day.
    fn get_hours(&self) -> u16;

    /// The minute of the hour.
    fn get_minutes(&self) -> u16;

    /// The second of the minute.
    fn get_seconds(&self) -> u16;

    /// The day of the month.
    fn get_day(&self) -> u16;

    /// The month of the year, January being 1.
    fn get_month(&self) -> u16;

    /// The year of the common era.
    fn get_year(&self) -> u16;
}

/// A boxed clock answers as the clock in the box does.
impl<T: SystemTimeRetriever + ?Sized> SystemTimeRetriever for Box<T> {
    fn get_hours(&self) -> (hours: u16)
        ensures
            call_ensures(T::get_hours, (&**self,), hours),
    {
        (**self).get_hours()
    }

    fn get_minutes(&self) -> (minutes: u16)
        ensures
            call_ensures(T::get_minutes, (&**self,), minutes),
    {
        (**self).get_minutes()
    }

    fn get_seconds(&self) -> (seconds: u16)
        ensures
            call_ensures(T::get_seconds, (&**self,), seconds),
    {
        (**self).get_seconds()
    }

    fn get_day(&self) -> (day: u16)
        ensures
            call_ensures(T::get_day, (&**self,), day),
    {
        (**self).get_day()
    }

    fn get_month(&self) -> (month: u16)
        ensures
            call_ensures(T::get_month, (&**self,), month),
    {
        (**self).get_month()
    }

    fn get_year(&self) -> (year: u16)
        ensures
            call_ensures(T::get_year, (&**self,), year),
    {
        (**self).get_year()
    }
}

/// Whether `clock` can show this hour, this minute and this second, each at a
/// call of its own.
pub open spec fn may_show_time<R: SystemTimeRetriever>(
    clock: &R,
    hours: u16,
    minutes: u16,
    seconds: u16,
) -> bool {
    &&& call_ensures(R::get_hours, (clock,), hours)
    &&& call_ensures(R::get_minutes, (clock,), minutes)
    &&& call_ensures(R::get_seconds, (clock,), seconds)
}

/// Whether `clock` can show this day, this month and this year, each at a
/// call of its own.
pub open spec fn may_show_date<R: SystemTimeRetriever>(
    clock: &R,
    day: u16,
    month: u16,
    year: u16,
) -> bool {
    &&& call_ensures(R::get_day, (clock,), day)
    &&& call_ensures(R::get_month, (clock,), month)
    &&& call_ensures(R::get_year, (clock,), year)
}

/// Tells the time and the date of the moment in the packed MS-DOS form.
pub trait DosDateTimeRetriever {
    /// The time of day, packed.
    fn get_current_dos_time(&self) -> u16;

    /// The date, packed.
    fn get_current_dos_date(&self) -> u16;
}

} // verus!
