//! How long the process has run, told in its two largest units.

use vstd::prelude::*;
use vstd::string::*;
use crate::text::{decimal, push_decimal};

verus! {

/// A count of a larger unit beside a count of the next smaller one.
pub open spec fn unit_pair(
    major: nat,
    major_unit: Seq<char>,
    minor: nat,
    minor_unit: Seq<char>,
) -> Seq<char> {
    decimal(major) + " "@ + major_unit + ", "@ + decimal(minor) + " "@ + minor_unit
}

/// The text for a duration of `secs` whole seconds, where it has one.
///
/// A minute is 60 seconds, an hour 60 minutes, a day 24 hours, a week 7 days,
/// a month 4 weeks and a year 12 months. The text names the largest unit of
/// which the duration holds at least one, with its count, and the next
/// smaller unit, with what is left of it: months within the year, weeks
/// within the month, hours within the day, minutes within the hour, seconds
/// within the minute. Beside weeks, the days are counted modulo 4. A duration
/// under a minute has no such text.
pub open spec fn uptime(secs: nat) -> Option<Seq<char>> {
    let mins = secs / 60;
    let hours = mins / 60;
    let days = hours / 24;
    let weeks = days / 7;
    let months = weeks / 4;
    let years = months / 12;
    if years != 0 {
        Some(unit_pair(years, "years"@, months % 12, "months"@))
    } else if months != 0 {
        Some(unit_pair(months, "months"@, weeks % 4, "weeks"@))
    } else if weeks != 0 {
        Some(unit_pair(weeks, "weeks"@, days % 4, "days"@))
    } else if days != 0 {
        Some(unit_pair(days, "days"@, hours % 24, "hours"@))
    } else if hours != 0 {
        Some(unit_pair(hours, "hours"@, mins % 60, "mins"@))
    } else if mins != 0 {
        Some(unit_pair(mins, "mins"@, secs % 60, "secs"@))
    } else {
        None
    }
}

/// The text of an optional string.
pub open spec fn text_view(text: Option<String>) -> Option<Seq<char>> {
    match text {
        Some(s) => Some(s@),
        None => None,
    }
}

/// Renders a count of a larger unit beside a count of the next smaller one.
fn format_pair(major: u64, major_unit: &str, minor: u64, minor_unit: &str) -> (text: String)
    ensures
        text@ == unit_pair(major as nat, major_unit@, minor as nat, minor_unit@),
{
    let mut text = String::new();
    push_decimal(&mut text, major);
    text.append(" ");
    text.append(major_unit);
    text.append(", ");
    push_decimal(&mut text, minor);
    text.append(" ");
    text.append(minor_unit);
    assert(text@ =~= unit_pair(major as nat, major_unit@, minor as nat, minor_unit@));
    text
}

/// Tells a duration of `secs` whole seconds in its two largest units, or
/// gives `None` where it is shorter than a minute.
pub fn duration_display(secs: u64) -> (text: Option<String>)
    ensures
        text_view(text) == uptime(secs as nat),
        text is None <==> secs < 60,
{
    let mins: u64 = secs / 60;
    let hours: u64 = mins / 60;
    let days: u64 = hours / 24;
    let weeks: u64 = days / 7;
    let months: u64 = weeks / 4;
    let years: u64 = months / 12;
    let counts: [u64; 7] = [years, months, weeks, days, hours, mins, secs];
    let units: [&str; 7] = ["years", "months", "weeks", "days", "hours", "mins", "secs"];
    let wraps: [u64; 7] = [1, 12, 4, 4, 24, 60, 60];
    let mut i: usize = 0;
    while i < 6
        invariant
            i <= 6,
            counts@ == seq![years, months, weeks, days, hours, mins, secs],
            units@ == seq!["years", "months", "weeks", "days", "hours", "mins", "secs"],
            wraps@ == seq![1u64, 12u64, 4u64, 4u64, 24u64, 60u64, 60u64],
            mins == secs / 60,
            hours == mins / 60,
            days == hours / 24,
            weeks == days / 7,
            months == weeks / 4,
            years == months / 12,
            forall|k: int| 0 <= k < i ==> counts@[k] == 0,
        decreases 6 - i,
    {
        if counts[i] != 0 {
            let text = format_pair(counts[i], units[i], counts[i + 1] % wraps[i + 1], units[i + 1]);
            return Some(text);
        }
        i = i + 1;
    }
    None
}

} // verus!
