//! The sheet that is due, by the calendar.
//!
//! Sheet 3 starts at a fixed local time and each later sheet one week after the sheet
//! before it, up to sheet 10, which is due for one week. Before sheet 3 starts, sheet 2
//! is due.

use vstd::prelude::*;

verus! {

/// Seconds in one week.
pub const SECS_PER_WEEK: i64 = 604_800;

/// A point in time: the seconds since the beginning of 1970 and the nanoseconds since the
/// beginning of that second.
#[derive(Clone, Copy, Debug, PartialEq, Eq, Structural)]
pub struct Moment {
    pub secs: i64,
    pub nanos: u32,
}

impl Moment {
    /// The moment is later than the beginning of the second `secs`.
    pub open spec fn is_after(self, secs: int) -> bool {
        self.secs > secs || (self.secs == secs && self.nanos > 0)
    }
}

/// The sheet of the given number is due at `now`, where sheet 3 starts at the second
/// `first_start`: the sheet has started, unless it is sheet 2, and the sheet after it
/// has not, nor has the week after sheet 10.
pub open spec fn is_current_sheet(now: Moment, first_start: int, sheet: int) -> bool {
    &&& 2 <= sheet <= 10
    &&& sheet >= 3 ==> now.is_after(first_start + (sheet - 3) * SECS_PER_WEEK)
    &&& !now.is_after(first_start + (sheet - 2) * SECS_PER_WEEK)
}

/// The name of the sheet of the given number.
pub open spec fn sheet_label(sheet: int) -> Seq<char> {
    if sheet == 2 {
        "sheet02"@
    } else if sheet == 3 {
        "sheet03"@
    } else if sheet == 4 {
        "sheet04"@
    } else if sheet == 5 {
        "sheet05"@
    } else if sheet == 6 {
        "sheet06"@
    } else if sheet == 7 {
        "sheet07"@
    } else if sheet == 8 {
        "sheet08"@
    } else if sheet == 9 {
        "sheet09"@
    } else {
        "sheet10"@
    }
}

/// Calls `chrono::Local::now` and takes the result apart with `DateTime::timestamp` and
/// `DateTime::timestamp_subsec_nanos`. Trusted, and nothing is claimed of the moment
/// that comes back: it is the reading of a clock.
#[verifier::external_body]
fn local_now() -> Moment {
    let now = chrono::Local::now();
    Moment { secs: now.timestamp(), nanos: now.timestamp_subsec_nanos() }
}

/// Calls `chrono::TimeZone::with_ymd_and_hms` on `chrono::Local` and hands back the
/// `DateTime::timestamp` of the one moment that the given local time stands for; there
/// is none where no such local time exists or where it exists twice. Trusted, and
/// nothing is claimed of the second that comes back: it depends on the time zone of the
/// machine.
#[verifier::external_body]
fn local_timestamp(year: i32, month: u32, day: u32, hour: u32, min: u32, sec: u32) -> Option<
    i64,
> {
    match chrono::TimeZone::with_ymd_and_hms(&chrono::Local, year, month, day, hour, min, sec) {
        chrono::LocalResult::Single(moment) => Some(moment.timestamp()),
        chrono::LocalResult::Ambiguous(_, _) => None,
        chrono::LocalResult::None => None,
    }
}

/// The name of the sheet that is due at `now`, where sheet 3 starts at the second
/// `first_start`; none once the week of sheet 10 is over.
pub fn sheet_name_at(now: Moment, first_start: i64) -> (name: Option<&'static str>)
    ensures
        match name {
            Some(label) => exists|sheet: int| #[trigger]
                is_current_sheet(now, first_start as int, sheet) && label@ == sheet_label(sheet),
            None => now.is_after(first_start + 8 * SECS_PER_WEEK),
        },
{
    let week: i128 = 604_800;
    let elapsed: i128 = now.secs as i128 - first_start as i128;
    let ahead: bool = now.nanos > 0;
    let ghost start = first_start as int;
    if elapsed > 8 * week || (elapsed == 8 * week && ahead) {
        None
    } else if elapsed > 7 * week || (elapsed == 7 * week && ahead) {
        assert(is_current_sheet(now, start, 10));
        Some("sheet10")
    } else if elapsed > 6 * week || (elapsed == 6 * week && ahead) {
        assert(is_current_sheet(now, start, 9));
        Some("sheet09")
    } else if elapsed > 5 * week || (elapsed == 5 * week && ahead) {
        assert(is_current_sheet(now, start, 8));
        Some("sheet08")
    } else if elapsed > 4 * week || (elapsed == 4 * week && ahead) {
        assert(is_current_sheet(now, start, 7));
        Some("sheet07")
    } else if elapsed > 3 * week || (elapsed == 3 * week && ahead) {
        assert(is_current_sheet(now, start, 6));
        Some("sheet06")
    } else if elapsed > 2 * week || (elapsed == 2 * week && ahead) {
        assert(is_current_sheet(now, start, 5));
        Some("sheet05")
    } else if elapsed > week || (elapsed == week && ahead) {
        assert(is_current_sheet(now, start, 4));
        Some("sheet04")
    } else if elapsed > 0 || (elapsed == 0 && ahead) {
        assert(is_current_sheet(now, start, 3));
        Some("sheet03")
    } else {
        assert(is_current_sheet(now, start, 2));
        Some("sheet02")
    }
}

/// The name of the sheet that is due now, where sheet 3 starts on 6 May 2025 at nine
/// o'clock local time. There is none once the week of sheet 10 is over, nor where that
/// local time does not stand for one moment.
pub fn get_current_sheet_name() -> (name: Option<&'static str>)
    ensures
        name matches Some(label) ==> exists|sheet: int|
            2 <= sheet <= 10 && label@ == #[trigger] sheet_label(sheet),
{
    let current = local_now();
    let first_start = local_timestamp(2025, 5, 6, 9, 0, 0);
    let name = sheet_name_from(current, first_start);
    proof {
        if let Some(label) = name {
            let sheet = choose|sheet: int| #[trigger]
                is_current_sheet(current, first_start->Some_0 as int, sheet) && label@
                    == sheet_label(sheet);
            assert(2 <= sheet <= 10 && label@ == sheet_label(sheet));
        }
    }
    name
}

/// The name of the sheet that is due at `now`, given the second at which sheet 3 starts
/// as the calendar of the machine has it: `None` where the local time of that start
/// stands for no moment or for more than one. There is no sheet then, nor once the week
/// of sheet 10 is over; at any other time it is the one sheet that is due.
pub fn sheet_name_from(now: Moment, first_start: Option<i64>) -> (name: Option<&'static str>)
    ensures
        match (first_start, name) {
            (None, _) => name is None,
            (Some(start), Some(label)) => exists|sheet: int| #[trigger]
                is_current_sheet(now, start as int, sheet) && label@ == sheet_label(sheet),
            (Some(start), None) => now.is_after(start + 8 * SECS_PER_WEEK),
        },
{
    match first_start {
        None => None,
        Some(start) => sheet_name_at(now, start),
    }
}

/// At any moment at most one sheet is due.
pub proof fn lemma_one_sheet_at_a_time(now: Moment, first_start: int, sheet: int, other: int)
    requires
        is_current_sheet(now, first_start, sheet),
        is_current_sheet(now, first_start, other),
    ensures
        sheet == other,
{
}

} // verus!
