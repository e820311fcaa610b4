//! Timestamps read from a clock at the moment they are asked for.

use crate::date_time_converter::{dos_date_of, dos_time_of, pack_dos_date, pack_dos_time};
use crate::date_time_retriever::{
    may_show_date, may_show_time, DosDateTimeRetriever, SystemTimeRetriever,
};
use vstd::prelude::*;

verus! {

/// Reads a clock and packs what it shows.
pub struct DosDateTimeRetrieverAdapter<R: SystemTimeRetriever> {
    pub date_time_retriever: R,
}

impl<R: SystemTimeRetriever> DosDateTimeRetriever for DosDateTimeRetrieverAdapter<R> {
    fn get_current_dos_time(&self) -> (dos_time: u16)
        ensures
            exists|hours: u16, minutes: u16, seconds: u16|
                #[trigger] may_show_time(&self.date_time_retriever, hours, minutes, seconds)
                    && dos_time == dos_time_of(hours, minutes, seconds),
    {
        let hours: u16 = self.date_time_retriever.get_hours();
        let minutes: u16 = self.date_time_retriever.get_minutes();
        let seconds: u16 = self.date_time_retriever.get_seconds();
        assert(may_show_time(&self.date_time_retriever, hours, minutes, seconds));

        pack_dos_time(hours, minutes, seconds)
    }

    fn get_current_dos_date(&self) -> (dos_date: u16)
        ensures
            exists|day: u16, month: u16, year: u16|
                #[trigger] may_show_date(&self.date_time_retriever, day, month, year) && dos_date
                    == dos_date_of(day, month, year),
    {
        let day: u16 = self.date_time_retriever.get_day();
        let month: u16 = self.date_time_retriever.get_month();
        let year: u16 = self.date_time_retriever.get_year();
        assert(may_show_date(&self.date_time_retriever, day, month, year));

        pack_dos_date(day, month, year)
    }
}

} // verus!
