//! MS-DOS timestamps: how a calendar time is packed into the two 16-bit
//! fields of the headers, and what the archive asks of a clock.
//!
//! Packing never fails. A field that is too large for its bits is clamped to
//! the largest value that they hold, and a year before 1980 to 1980, so that
//! no field runs into its neighbour. [`SystemTime::is_packable`] tells
//! whether a time is packed as it is.

pub mod dos_date_time_calculator_adapter;

use vstd::arithmetic::div_mod::lemma_fundamental_div_mod_converse;
use vstd::prelude::*;

verus! {

/// The first year that an MS-DOS date can hold.
pub const DOS_EPOCH_YEAR: u16 = 1980;

/// The last year that an MS-DOS date can hold: seven bits after the epoch.
pub const DOS_LAST_YEAR: u16 = 2107;

/// A calendar time in six fields.
pub struct SystemTime {
    pub hours: u16,
    pub minutes: u16,
    pub seconds: u16,
    pub day: u16,
    pub month: u16,
    pub year: u16,
}

impl SystemTime {
    /// Whether each field is within what the packed form can hold: the hour
    /// in five bits, the minute in six, half the second in five, the day in
    /// five, the month in four, the years since 1980 in seven.
    pub open spec fn fits_dos_fields(self) -> bool {
        &&& self.hours <= 31
        &&& self.minutes <= 63
        &&& self.seconds <= 63
        &&& self.day <= 31
        &&& self.month <= 15
        &&& DOS_EPOCH_YEAR <= self.year <= DOS_LAST_YEAR
    }

    /// Whether the time can be packed as it is, with no field clamped.
    pub fn is_packable(&self) -> (packable: bool)
        ensures
            packable == self.fits_dos_fields(),
    {
        self.hours <= 31 && self.minutes <= 63 && self.seconds <= 63 && self.day <= 31
            && self.month <= 15 && DOS_EPOCH_YEAR <= self.year && self.year <= DOS_LAST_YEAR
    }

    /// The calendar time that `fields` hold: hours, minutes, seconds, day,
    /// month and year, in this order. There is none where a field is
    /// missing; what follows the year is not looked at.
    pub fn from_fields(fields: &[u16]) -> (date_time: Option<SystemTime>)
        ensures
            date_time is Some <==> fields@.len() >= 6,
            date_time matches Some(time) ==> {
                &&& time.hours == fields@[0]
                &&& time.minutes == fields@[1]
                &&& time.seconds == fields@[2]
                &&& time.day == fields@[3]
                &&& time.month == fields@[4]
                &&& time.year == fields@[5]
            },
    {
        if fields.len() < 6 {
            return None;
        }
        Some(
            SystemTime {
                hours: fields[0],
                minutes: fields[1],
                seconds: fields[2],
                day: fields[3],
                month: fields[4],
                year: fields[5],
            },
        )
    }
}

/// Tells the time and the date of the moment in the packed MS-DOS form.
pub trait DosDateTimeCalculator {
    /// The time of day, packed.
    fn get_current_dos_time(&self) -> u16;

    /// The date, packed.
    fn get_current_dos_date(&self) -> u16;
}

/// A boxed calculator answers as the calculator in the box does.
impl<T: DosDateTimeCalculator + ?Sized> DosDateTimeCalculator for Box<T> {
    fn get_current_dos_time(&self) -> (dos_time: u16)
        ensures
            call_ensures(T::get_current_dos_time, (&**self,), dos_time),
    {
        (**self).get_current_dos_time()
    }

    fn get_current_dos_date(&self) -> (dos_date: u16)
        ensures
            call_ensures(T::get_current_dos_date, (&**self,), dos_date),
    {
        (**self).get_current_dos_date()
    }
}

/// Whether `dos_time` is a time that `calculator` can return.
pub open spec fn may_tell_time<D: DosDateTimeCalculator>(calculator: &D, dos_time: u16) -> bool {
    call_ensures(D::get_current_dos_time, (calculator,), dos_time)
}

/// Whether `dos_date` is a date that `calculator` can return.
pub open spec fn may_tell_date<D: DosDateTimeCalculator>(calculator: &D, dos_date: u16) -> bool {
    call_ensures(D::get_current_dos_date, (calculator,), dos_date)
}

/// A calculator is fixed when it can return one time and one date only.
pub open spec fn is_fixed<D: DosDateTimeCalculator>(calculator: &D) -> bool {
    &&& forall|first: u16, second: u16|
        #[trigger] may_tell_time(calculator, first) && #[trigger] may_tell_time(calculator, second)
            ==> first == second
    &&& forall|first: u16, second: u16|
        #[trigger] may_tell_date(calculator, first) && #[trigger] may_tell_date(calculator, second)
            ==> first == second
}

/// A fixed calculator stays fixed in a box.
pub proof fn lemma_boxed_calculator_is_fixed<T: DosDateTimeCalculator>(boxed: &Box<T>)
    requires
        is_fixed::<T>(&**boxed),
    ensures
        is_fixed(boxed),
{
    assert forall|first: u16, second: u16|
        #[trigger] may_tell_time(boxed, first) && #[trigger] may_tell_time(
            boxed,
            second,
        ) implies first == second by {
        assert(may_tell_time::<T>(&**boxed, first));
        assert(may_tell_time::<T>(&**boxed, second));
    }
    assert forall|first: u16, second: u16|
        #[trigger] may_tell_date(boxed, first) && #[trigger] may_tell_date(
            boxed,
            second,
        ) implies first == second by {
        assert(may_tell_date::<T>(&**boxed, first));
        assert(may_tell_date::<T>(&**boxed, second));
    }
}

/// `value`, or `largest` where `value` is beyond it.
pub open spec fn at_most(value: int, largest: int) -> int {
    if value <= largest {
        value
    } else {
        largest
    }
}

/// The packed time: the hour in bits 15 to 11, the minute in bits 10 to 5,
/// half the second in bits 4 to 0. A field that is too large for its bits is
/// taken as the largest value that they hold.
pub open spec fn dos_time_of(hours: u16, minutes: u16, seconds: u16) -> int {
    at_most(hours as int, 31) * 2048 + at_most(minutes as int, 63) * 32 + at_most(
        seconds as int / 2,
        31,
    )
}

/// The packed date: the years since 1980 in bits 15 to 9, the month in bits 8
/// to 5, the day in bits 4 to 0. A year before 1980 is taken as 1980, and a
/// field that is too large for its bits as the largest value that they hold.
pub open spec fn dos_date_of(day: u16, month: u16, year: u16) -> int {
    let years: int = if year < DOS_EPOCH_YEAR {
        0
    } else {
        at_most(year - DOS_EPOCH_YEAR, 127)
    };
    years * 512 + at_most(month as int, 15) * 32 + at_most(day as int, 31)
}

/// The hour that a packed time holds.
pub open spec fn dos_time_hours(dos_time: int) -> int {
    dos_time / 2048
}

/// The minute that a packed time holds.
pub open spec fn dos_time_minutes(dos_time: int) -> int {
    dos_time / 32 % 64
}

/// The second that a packed time holds: always even.
pub open spec fn dos_time_seconds(dos_time: int) -> int {
    dos_time % 32 * 2
}

/// The year that a packed date holds.
pub open spec fn dos_date_year(dos_date: int) -> int {
    DOS_EPOCH_YEAR + dos_date / 512
}

/// The month that a packed date holds.
pub open spec fn dos_date_month(dos_date: int) -> int {
    dos_date / 32 % 16
}

/// The day that a packed date holds.
pub open spec fn dos_date_day(dos_date: int) -> int {
    dos_date % 32
}

/// Packs a time of day.
pub fn pack_dos_time(hours: u16, minutes: u16, seconds: u16) -> (dos_time: u16)
    ensures
        dos_time == dos_time_of(hours, minutes, seconds),
{
    let hour_field: u16 = if hours <= 31 { hours } else { 31 };
    let minute_field: u16 = if minutes <= 63 { minutes } else { 63 };
    let second_field: u16 = if seconds / 2 <= 31 { seconds / 2 } else { 31 };

    hour_field * 2048 + minute_field * 32 + second_field
}

/// Packs a date.
pub fn pack_dos_date(day: u16, month: u16, year: u16) -> (dos_date: u16)
    ensures
        dos_date == dos_date_of(day, month, year),
{
    let day_field: u16 = if day <= 31 { day } else { 31 };
    let month_field: u16 = if month <= 15 { month } else { 15 };
    let years_since_1980: u16 = if year < DOS_EPOCH_YEAR {
        0
    } else if year <= DOS_LAST_YEAR {
        year - DOS_EPOCH_YEAR
    } else {
        127
    };

    years_since_1980 * 512 + month_field * 32 + day_field
}

/// Where no field has to be clamped, the packed forms are the fields shifted
/// to their bits and added.
pub proof fn lemma_packing_within_range(date_time: SystemTime)
    requires
        date_time.fits_dos_fields(),
    ensures
        dos_time_of(date_time.hours, date_time.minutes, date_time.seconds) == date_time.hours
            * 2048 + date_time.minutes * 32 + date_time.seconds / 2,
        dos_date_of(date_time.day, date_time.month, date_time.year) == (date_time.year - 1980)
            * 512 + date_time.month * 32 + date_time.day,
{
}

/// A time of day comes back out of its packed form, but for the odd second,
/// which the two-second resolution drops.
pub proof fn lemma_dos_time_round_trip(hours: u16, minutes: u16, seconds: u16)
    requires
        hours <= 23,
        minutes <= 59,
        seconds <= 59,
    ensures
        dos_time_hours(dos_time_of(hours, minutes, seconds)) == hours,
        dos_time_minutes(dos_time_of(hours, minutes, seconds)) == minutes,
        dos_time_seconds(dos_time_of(hours, minutes, seconds)) == seconds - seconds % 2,
{
    let half: int = seconds as int / 2;
    let packed: int = dos_time_of(hours, minutes, seconds);
    assert(packed == hours * 2048 + (minutes * 32 + half));
    assert(packed == (hours * 64 + minutes) * 32 + half);
    lemma_fundamental_div_mod_converse(packed, 2048, hours as int, minutes * 32 + half);
    lemma_fundamental_div_mod_converse(packed, 32, hours * 64 + minutes, half);
    lemma_fundamental_div_mod_converse(hours * 64 + minutes, 64, hours as int, minutes as int);
}

/// A date from 1980 to 2107 comes back out of its packed form.
pub proof fn lemma_dos_date_round_trip(day: u16, month: u16, year: u16)
    requires
        day <= 31,
        month <= 12,
        DOS_EPOCH_YEAR <= year <= DOS_LAST_YEAR,
    ensures
        dos_date_year(dos_date_of(day, month, year)) == year,
        dos_date_month(dos_date_of(day, month, year)) == month,
        dos_date_day(dos_date_of(day, month, year)) == day,
{
    let years: int = year - DOS_EPOCH_YEAR;
    let packed: int = dos_date_of(day, month, year);
    assert(packed == years * 512 + (month * 32 + day));
    assert(packed == (years * 16 + month) * 32 + day);
    lemma_fundamental_div_mod_converse(packed, 512, years, month * 32 + day);
    lemma_fundamental_div_mod_converse(packed, 32, years * 16 + month, day as int);
    lemma_fundamental_div_mod_converse(years * 16 + month, 16, years, month as int);
}

} // verus!
