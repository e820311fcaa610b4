//! A clock that stands still.

use crate::date_time_retriever::SystemTimeRetriever;
use vstd::prelude::*;

verus! {

/// A clock on which every field is zero.
pub struct FakeTimeRetriever {}

impl SystemTimeRetriever for FakeTimeRetriever {
    fn get_hours(&self) -> (hours: u16)
        ensures
            hours == 0,
    {
        0
    }

    fn get_minutes(&self) -> (minutes: u16)
        ensures
            minutes == 0,
    {
        0
    }

    fn get_seconds(&self) -> (seconds: u16)
        ensures
            seconds == 0,
    {
        0
    }

    fn get_day(&self) -> (day: u16)
        ensures
            day == 0,
    {
        0
    }

    fn get_month(&self) -> (month: u16)
        ensures
            month == 0,
    {
        0
    }

    fn get_year(&self) -> (year: u16)
        ensures
            year == 0,
    {
        0
    }
}

} // verus!
