//! Zuptime: how long the bot has been running, as `1d 2h 3m 4s`.
use vstd::prelude::*;
use crate::context::FnOutput;
use crate::decimal::decimal;

verus! {

/// The uptime text of `s` seconds: days, hours, minutes and seconds, leaving
/// out the leading units that are zero (seconds always shown).
pub open spec fn uptime_text(s: nat) -> Seq<char> {
    let days = s / 86400;
    let hours = (s % 86400) / 3600;
    let mins = (s % 3600) / 60;
    let secs = s % 60;
    let sec_part = decimal(secs) + "s"@;
    let min_part = decimal(mins) + "m "@ + sec_part;
    let hour_part = decimal(hours) + "h "@ + min_part;
    if days > 0 {
        decimal(days) + "d "@ + hour_part
    } else if hours > 0 {
        hour_part
    } else if mins > 0 {
        min_part
    } else {
        sec_part
    }
}

/// The uptime text of a number of seconds.
pub fn uptime_of(total_secs: u64) -> (r: String)
    ensures
        r@ == uptime_text(total_secs as nat),
{
    let days = total_secs / 86400;
    let hours = (total_secs % 86400) / 3600;
    let mins = (total_secs % 3600) / 60;
    let secs = total_secs % 60;
    let mut r = String::new();
    if days > 0 {
        r.append(crate::decimal::u64_text(days).as_str());
        r.append("d ");
    }
    if days > 0 || hours > 0 {
        r.append(crate::decimal::u64_text(hours).as_str());
        r.append("h ");
    }
    if days > 0 || hours > 0 || mins > 0 {
        r.append(crate::decimal::u64_text(mins).as_str());
        r.append("m ");
    }
    r.append(crate::decimal::u64_text(secs).as_str());
    r.append("s");
    assert(r@ =~= uptime_text(total_secs as nat));
    r
}

/// The uptime, given the seconds since the bot started (none where the start
/// time was not recorded, which reads as `0s`).
pub fn run(elapsed_secs: Option<u64>) -> (r: FnOutput)
    ensures
        r matches FnOutput::Text(t) && t@ == match elapsed_secs {
            Some(s) => uptime_text(s as nat),
            None => "0s"@,
        },
{
    match elapsed_secs {
        Some(s) => FnOutput::Text(uptime_of(s)),
        None => FnOutput::Text(String::from_str("0s")),
    }
}

} // verus!
