//! What the user chooses, and the figures and labels shown for it.
//!
//! Instants are nanoseconds on the clock of the running schedule.

use vstd::prelude::*;
use vstd::string::StringExecFns;

use crate::timelapse::{Status, NANOS_PER_SECOND};

verus! {

broadcast use vstd::string::group_string_axioms;

/// Bounds of the interval slider, in seconds.
pub const MIN_INTERVAL_SECONDS: u64 = 1;

pub const MAX_INTERVAL_SECONDS: u64 = 3600;

/// Bounds of the duration slider, in minutes.
pub const MIN_DURATION_MINUTES: u64 = 1;

pub const MAX_DURATION_MINUTES: u64 = 1440;

/// Name of the folder, below the user's pictures directory, that timelapses
/// go to unless the user picks another.
pub fn timelapse_folder_name() -> (name: &'static str)
    ensures
        name@ == "Elite Dangerous Timelapses"@,
{
    "Elite Dangerous Timelapses"
}

/// The choices that are kept from one run of the program to the next.
#[derive(Debug, Clone, PartialEq, Eq)]
pub struct Settings {
    pub timelapse_folder: String,
    pub interval_seconds: u64,
    pub stop_after: bool,
    pub duration_minutes: u64,
    pub high_res: bool,
    pub organize: bool,
    pub remove_original: bool,
}

impl Settings {
    /// The choices of a first run: a screenshot every five seconds, with no
    /// end set and an hour proposed, in high resolution, stored in
    /// `timelapse_folder` with the originals removed.
    pub fn new(timelapse_folder: String) -> (settings: Settings)
        ensures
            settings.timelapse_folder == timelapse_folder,
            settings.interval_seconds == 5,
            !settings.stop_after,
            settings.duration_minutes == 60,
            settings.high_res,
            settings.organize,
            settings.remove_original,
    {
        Settings {
            timelapse_folder,
            interval_seconds: 5,
            stop_after: false,
            duration_minutes: 60,
            high_res: true,
            organize: true,
            remove_original: true,
        }
    }

    /// About how many screenshots a timelapse of the chosen length takes:
    /// its seconds divided by the interval, rounded down. `None` when the
    /// interval is zero or the count does not fit in 64 bits.
    pub fn estimated_screenshots(&self) -> (count: Option<u64>)
        ensures
            count == if self.interval_seconds == 0 || 60 * self.duration_minutes
                / self.interval_seconds as int > u64::MAX {
                None
            } else {
                Some((60 * self.duration_minutes / self.interval_seconds as int) as u64)
            },
    {
        if self.interval_seconds == 0 {
            None
        } else {
            let seconds: u128 = 60 * (self.duration_minutes as u128);
            let count: u128 = seconds / (self.interval_seconds as u128);
            if count > u64::MAX as u128 {
                None
            } else {
                Some(count as u64)
            }
        }
    }

    /// The instant at which a timelapse started at `now` is to stop, if the
    /// user set an end: the chosen minutes later, or the end of the clock
    /// where that lies beyond it.
    pub fn deadline(&self, now: u64) -> (deadline: Option<u64>)
        ensures
            deadline == if !self.stop_after {
                None
            } else if now + 60 * self.duration_minutes * NANOS_PER_SECOND > u64::MAX {
                Some(u64::MAX)
            } else {
                Some((now + 60 * self.duration_minutes * NANOS_PER_SECOND) as u64)
            },
    {
        if !self.stop_after {
            None
        } else {
            let length: u128 = 60 * (self.duration_minutes as u128) * (NANOS_PER_SECOND as u128);
            let end: u128 = now as u128 + length;
            if end > u64::MAX as u128 {
                Some(u64::MAX)
            } else {
                Some(end as u64)
            }
        }
    }
}

/// Whether a timelapse with this deadline is over at `now`.
pub fn deadline_passed(deadline: Option<u64>, now: u64) -> (passed: bool)
    ensures
        passed == (deadline matches Some(end) && now > end),
{
    match deadline {
        Some(end) => now > end,
        None => false,
    }
}

/// Whole seconds from `now` to `target`; none if `target` has passed.
pub open spec fn whole_seconds_until(target: u64, now: u64) -> int {
    if now <= target {
        (target - now) / NANOS_PER_SECOND as int
    } else {
        0
    }
}

/// The seconds shown while waiting for `target`: the whole seconds left,
/// plus the one that has begun.
pub fn seconds_until(target: u64, now: u64) -> (seconds: u64)
    ensures
        seconds == 1 + whole_seconds_until(target, now),
{
    if now <= target {
        1 + (target - now) / NANOS_PER_SECOND
    } else {
        1
    }
}

/// The minutes shown before a deadline: the whole minutes left, plus the
/// one that has begun.
pub fn minutes_until(deadline: u64, now: u64) -> (minutes: u64)
    ensures
        minutes == 1 + whole_seconds_until(deadline, now) / 60,
{
    if now <= deadline {
        1 + (deadline - now) / NANOS_PER_SECOND / 60
    } else {
        1
    }
}

/// The character of a decimal digit.
pub open spec fn digit(d: nat) -> char {
    if d == 0 {
        '0'
    } else if d == 1 {
        '1'
    } else if d == 2 {
        '2'
    } else if d == 3 {
        '3'
    } else if d == 4 {
        '4'
    } else if d == 5 {
        '5'
    } else if d == 6 {
        '6'
    } else if d == 7 {
        '7'
    } else if d == 8 {
        '8'
    } else {
        '9'
    }
}

/// A number in decimal, without sign or leading zeros.
pub open spec fn digits(n: nat) -> Seq<char>
    decreases n,
{
    if n < 10 {
        seq![digit(n)]
    } else {
        digits(n / 10).push(digit(n % 10))
    }
}

fn digit_text(d: u64) -> (text: &'static str)
    requires
        d < 10,
    ensures
        text@ == seq![digit(d as nat)],
{
    proof {
        reveal_strlit("0");
        reveal_strlit("1");
        reveal_strlit("2");
        reveal_strlit("3");
        reveal_strlit("4");
        reveal_strlit("5");
        reveal_strlit("6");
        reveal_strlit("7");
        reveal_strlit("8");
        reveal_strlit("9");
    }
    let text = if d == 0 {
        "0"
    } else if d == 1 {
        "1"
    } else if d == 2 {
        "2"
    } else if d == 3 {
        "3"
    } else if d == 4 {
        "4"
    } else if d == 5 {
        "5"
    } else if d == 6 {
        "6"
    } else if d == 7 {
        "7"
    } else if d == 8 {
        "8"
    } else {
        "9"
    };
    assert(text@ =~= seq![digit(d as nat)]);
    text
}

/// Writes a number in decimal.
pub fn decimal(n: u64) -> (text: String)
    ensures
        text@ == digits(n as nat),
    decreases n,
{
    if n < 10 {
        String::from_str(digit_text(n))
    } else {
        let mut text = decimal(n / 10);
        text.append(digit_text(n % 10));
        text
    }
}

/// An interval as the slider shows it: seconds below a minute, minutes and
/// seconds from there on.
pub open spec fn interval_text(seconds: nat) -> Seq<char> {
    if seconds < 60 {
        digits(seconds) + "s"@
    } else {
        digits(seconds / 60) + "m"@ + digits(seconds % 60) + "s"@
    }
}

pub fn interval_label(seconds: u64) -> (label: String)
    ensures
        label@ == interval_text(seconds as nat),
{
    if seconds < 60 {
        let mut label = decimal(seconds);
        label.append("s");
        label
    } else {
        let mut label = decimal(seconds / 60);
        label.append("m");
        label.append(decimal(seconds % 60).as_str());
        label.append("s");
        label
    }
}

/// A duration as the slider shows it: minutes below an hour, hours and
/// minutes from there on.
pub open spec fn duration_text(minutes: nat) -> Seq<char> {
    if minutes < 60 {
        digits(minutes) + "m"@
    } else {
        digits(minutes / 60) + "h"@ + digits(minutes % 60) + "m"@
    }
}

pub fn duration_label(minutes: u64) -> (label: String)
    ensures
        label@ == duration_text(minutes as nat),
{
    if minutes < 60 {
        let mut label = decimal(minutes);
        label.append("m");
        label
    } else {
        let mut label = decimal(minutes / 60);
        label.append("h");
        label.append(decimal(minutes % 60).as_str());
        label.append("m");
        label
    }
}

/// What is shown for a status at `now`.
pub open spec fn status_text(status: Status, now: u64) -> Seq<char> {
    match status {
        Status::Capturing => "Capturing..."@,
        Status::Waiting(target) => "Next in "@ + digits(
            (1 + whole_seconds_until(target, now)) as nat,
        ) + "s"@,
    }
}

pub fn status_label(status: Status, now: u64) -> (label: String)
    ensures
        label@ == status_text(status, now),
{
    match status {
        Status::Capturing => String::from_str("Capturing..."),
        Status::Waiting(target) => {
            let mut label = String::from_str("Next in ");
            label.append(decimal(seconds_until(target, now)).as_str());
            label.append("s");
            label
        },
    }
}

/// What is shown before a deadline at `now`.
pub open spec fn stopping_text(deadline: u64, now: u64) -> Seq<char> {
    "Stopping in "@ + digits((1 + whole_seconds_until(deadline, now) / 60) as nat) + "m"@
}

pub fn stopping_label(deadline: u64, now: u64) -> (label: String)
    ensures
        label@ == stopping_text(deadline, now),
{
    let mut label = String::from_str("Stopping in ");
    label.append(decimal(minutes_until(deadline, now)).as_str());
    label.append("m");
    label
}

/// What is shown for an estimated number of screenshots.
pub open spec fn estimate_text(count: nat) -> Seq<char> {
    "Number of screenshots: ~"@ + digits(count)
}

pub fn estimate_label(count: u64) -> (label: String)
    ensures
        label@ == estimate_text(count as nat),
{
    let mut label = String::from_str("Number of screenshots: ~");
    label.append(decimal(count).as_str());
    label
}

} // verus!
