//! Points in time, counted from the Unix epoch.

use vstd::prelude::*;

verus! {

/// A point in time by its distance from the Unix epoch: `secs` seconds and
/// `nanos` nanoseconds, before the epoch or not.
#[derive(Clone, Copy, Debug, PartialEq, Eq, Structural)]
pub struct EpochTime {
    pub before_epoch: bool,
    pub secs: u64,
    pub nanos: u32,
}

/// The whole seconds from the epoch to `time`; none for a time before it.
pub open spec fn seconds_since_epoch(time: EpochTime) -> Option<u64> {
    if time.before_epoch {
        None
    } else {
        Some(time.secs)
    }
}

pub fn unix_seconds(time: EpochTime) -> (secs: Option<u64>)
    ensures
        secs == seconds_since_epoch(time),
{
    if time.before_epoch {
        None
    } else {
        Some(time.secs)
    }
}

pub fn unix_seconds_opt(time: Option<EpochTime>) -> (secs: Option<u64>)
    ensures
        secs == match time {
            Some(time) => seconds_since_epoch(time),
            None => None,
        },
{
    match time {
        Some(time) => unix_seconds(time),
        None => None,
    }
}

pub fn unix_seconds_or_zero(time: Option<EpochTime>) -> (secs: u64)
    ensures
        secs == match time {
            Some(time) => match seconds_since_epoch(time) {
                Some(secs) => secs,
                None => 0,
            },
            None => 0,
        },
{
    match unix_seconds_opt(time) {
        Some(secs) => secs,
        None => 0,
    }
}

/// The digits that write `n` in decimal.
pub open spec fn decimal_digits(n: nat) -> Seq<char>
    decreases n,
{
    if n < 10 {
        seq![(('0' as u8) + (n as u8)) as char]
    } else {
        decimal_digits(n / 10).push((('0' as u8) + ((n % 10) as u8)) as char)
    }
}

/// `n` in decimal.
pub fn u64_to_decimal(n: u64) -> (digits: Vec<char>)
    ensures
        digits@ == decimal_digits(n as nat),
    decreases n,
{
    if n < 10 {
        let mut digits: Vec<char> = Vec::new();
        digits.push(('0' as u8 + n as u8) as char);
        digits
    } else {
        let mut digits = u64_to_decimal(n / 10);
        digits.push(('0' as u8 + (n % 10) as u8) as char);
        digits
    }
}

/// How long ago something happened, in words, given the seconds since:
/// `just now` under a minute, then whole minutes, hours or days.
pub open spec fn relative_age(elapsed_secs: u64) -> Seq<char> {
    if elapsed_secs < 60 {
        "just now"@
    } else if elapsed_secs < 3600 {
        decimal_digits((elapsed_secs / 60) as nat) + "m ago"@
    } else if elapsed_secs < 86400 {
        decimal_digits((elapsed_secs / 3600) as nat) + "h ago"@
    } else {
        decimal_digits((elapsed_secs / 86400) as nat) + "d ago"@
    }
}

/// The age to show for something that happened `elapsed_secs` seconds
/// ago; none where the time is not known or lies ahead.
pub fn format_relative_age(elapsed_secs: Option<u64>) -> (label: Option<String>)
    ensures
        match label {
            Some(text) => elapsed_secs is Some && text@ == relative_age(elapsed_secs->0),
            None => elapsed_secs is None,
        },
{
    let seconds = match elapsed_secs {
        Some(seconds) => seconds,
        None => {
            return None;
        },
    };
    if seconds < 60 {
        return Some("just now".to_owned());
    }
    let (count, unit) = if seconds < 3600 {
        (seconds / 60, "m ago")
    } else if seconds < 86400 {
        (seconds / 3600, "h ago")
    } else {
        (seconds / 86400, "d ago")
    };
    let mut text = crate::text::string_of(&u64_to_decimal(count));
    text.append(unit);
    Some(text)
}

} // verus!
