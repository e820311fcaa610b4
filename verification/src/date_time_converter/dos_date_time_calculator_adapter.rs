//! A calculator that tells one moment, given when it is made.

use crate::date_time_converter::{
    dos_date_of, dos_time_of, is_fixed, pack_dos_date, pack_dos_time, DosDateTimeCalculator,
    SystemTime,
};
use vstd::prelude::*;

verus! {

/// Tells the packed form of the calendar time that it holds.
pub struct DosDateTimeCalculatorAdapter {
    pub date_time: SystemTime,
}

impl DosDateTimeCalculator for DosDateTimeCalculatorAdapter {
    fn get_current_dos_time(&self) -> (dos_time: u16)
        ensures
            dos_time == dos_time_of(
                self.date_time.hours,
                self.date_time.minutes,
                self.date_time.seconds,
            ),
    {
        let hours: u16 = self.date_time.hours;
        let minutes: u16 = self.date_time.minutes;
        let seconds: u16 = self.date_time.seconds;

        pack_dos_time(hours, minutes, seconds)
    }

    fn get_current_dos_date(&self) -> (dos_date: u16)
        ensures
            dos_date == dos_date_of(self.date_time.day, self.date_time.month, self.date_time.year),
    {
        let day: u16 = self.date_time.day;
        let month: u16 = self.date_time.month;
        let year: u16 = self.date_time.year;

        pack_dos_date(day, month, year)
    }
}

/// The adapter tells the same time and the same date at every call.
pub proof fn lemma_dos_date_time_calculator_adapter_is_fixed(
    calculator: &DosDateTimeCalculatorAdapter,
)
    ensures
        is_fixed(calculator),
{
}

} // verus!
