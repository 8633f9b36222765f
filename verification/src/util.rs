//! Time rendering over plain timestamp values, and logging shorthands for
//! the transcript.

use vstd::prelude::*;
use vstd::string::StringExecFns;

use crate::clock;
use crate::str_util::Builder;
use crate::text;
use crate::transcript::{spec_pushed_count, spec_pushed_lines, spec_with_prefix, Transcript};

verus! {

/// Logs `n` empty lines.
pub fn log_empty(ts: &mut Transcript, n: i32)
    ensures
        final(ts).spec_prefixes() == old(ts).spec_prefixes(),
        final(ts).spec_start() == old(ts).spec_start(),
        final(ts).spec_lines().len() == old(ts).spec_lines().len() + (if n > 0 {
            n as int
        } else {
            0
        }),
{
    let mut i: i32 = 0;
    while i < n
        invariant
            0 <= i,
            i <= (if n > 0 {
                n
            } else {
                0
            }),
            ts.spec_prefixes() == old(ts).spec_prefixes(),
            ts.spec_start() == old(ts).spec_start(),
            ts.spec_lines().len() == old(ts).spec_lines().len() + i,
        decreases n - i,
    {
        ts.push("");
        proof {
            reveal_strlit("");
            assert(""@.len() == 0);
        }
        i += 1;
    }
}

/// Logs a title line set off by two empty lines above it.
pub fn log_title(ts: &mut Transcript, title: &str)
    ensures
        final(ts).spec_prefixes() == old(ts).spec_prefixes(),
        final(ts).spec_start() == old(ts).spec_start(),
        final(ts).spec_lines().len() == old(ts).spec_lines().len() + 2 + spec_pushed_count(title@),
{
    log_empty(ts, 2);
    ts.push(title);
}

/// Logs one inbound line under the incoming-direction prefix.
pub fn read_line(ts: &mut Transcript, line: &str)
    ensures
        final(ts).spec_prefixes() == old(ts).spec_prefixes(),
        final(ts).spec_start() == old(ts).spec_start(),
        exists|t: Seq<char>|
            final(ts).spec_lines() == old(ts).spec_lines() + spec_pushed_lines(
                old(ts).spec_prefixes().push("-->"@),
                t,
                line@,
            ),
{
    proof {
        reveal_strlit("-->");
    }
    ts.push_with_prefix("-->", line);
    proof {
        assert(spec_with_prefix(old(ts).spec_prefixes(), "-->"@) =~= old(ts).spec_prefixes().push(
            "-->"@,
        ));
    }
}

/// Clamps a timestamp into the range accepted for date formatting.
pub open spec fn spec_clamp_timestamp(secs: int) -> int {
    if secs < 0 {
        0
    } else if secs > clock::MAX_DATE_SECS as int {
        clock::MAX_DATE_SECS as int
    } else {
        secs
    }
}

pub fn clamp_timestamp(secs: i64) -> (r: i64)
    ensures
        r as int == spec_clamp_timestamp(secs as int),
        0 <= r <= clock::MAX_DATE_SECS,
{
    if secs < 0 {
        0
    } else if secs > clock::MAX_DATE_SECS {
        clock::MAX_DATE_SECS
    } else {
        secs
    }
}

/// The `HH:MM:SS.mmm` rendering of the time of day at the given timestamp.
/// The sub-second part of a leap second (a nanosecond count of one billion
/// or more) is folded back into the ordinary range.
pub open spec fn spec_time_of_day(secs: int, nanos: int) -> Seq<char> {
    let day = secs % 86400;
    let ns = if nanos >= 1_000_000_000 {
        nanos - 1_000_000_000
    } else {
        nanos
    };
    text::dec2_str(day / 3600) + seq![':'] + text::dec2_str((day / 60) % 60) + seq![':']
        + text::dec2_str(day % 60) + seq!['.'] + text::dec3_str(ns / 1_000_000)
}

pub fn format_time_of_day(secs: i64, nanos: u32) -> (r: String)
    requires
        0 <= secs,
        nanos < 2_000_000_000,
    ensures
        r@ == spec_time_of_day(secs as int, nanos as int),
{
    let day: i64 = secs % 86400;
    let h: u64 = (day / 3600) as u64;
    let m: u64 = ((day / 60) % 60) as u64;
    let s: u64 = (day % 60) as u64;
    let ns: u32 = if nanos >= 1_000_000_000 {
        nanos - 1_000_000_000
    } else {
        nanos
    };
    let ms: u64 = (ns / 1_000_000) as u64;
    let mut out = text::u64_to_string_pad2(h);
    out.append(":");
    let mm = text::u64_to_string_pad2(m);
    out.append(mm.as_str());
    out.append(":");
    let ss = text::u64_to_string_pad2(s);
    out.append(ss.as_str());
    out.append(".");
    let msms = text::u64_to_string_pad3(ms);
    out.append(msms.as_str());
    proof {
        reveal_strlit(":");
        reveal_strlit(".");
        assert(out@ =~= spec_time_of_day(secs as int, nanos as int));
    }
    out
}

/// The rendering of a timestamp with an optional date part and an optional
/// time-of-day part, joined by a space when both are requested.
pub open spec fn spec_time_str(secs: int, nanos: int, date: bool, time: bool) -> Seq<char> {
    if date && time {
        clock::date_text_of(secs) + seq![' '] + spec_time_of_day(secs, nanos)
    } else if date {
        clock::date_text_of(secs)
    } else if time {
        spec_time_of_day(secs, nanos)
    } else {
        Seq::empty()
    }
}

pub fn get_time_str_from(secs: i64, nanos: u32, date: bool, time: bool) -> (r: String)
    requires
        0 <= secs <= clock::MAX_DATE_SECS,
        nanos < 2_000_000_000,
    ensures
        r@ == spec_time_str(secs as int, nanos as int, date, time),
{
    let delim = String::from_str(" ");
    proof {
        reveal_strlit(" ");
    }
    let mut result = Builder::new(&delim);
    if date {
        let formatted = clock::format_utc_date(secs);
        result.append(&formatted);
    }
    if time {
        let formatted = format_time_of_day(secs, nanos);
        result.append(&formatted);
    }
    let out = result.result;
    proof {
        assert(out@ =~= spec_time_str(secs as int, nanos as int, date, time));
    }
    out
}

/// The rendering of the current time, as `get_time_str_from` renders it;
/// which instant is read is up to the clock.
pub fn get_time_str(date: bool, time: bool) -> (r: String) {
    let (secs, nanos) = clock::now_timestamp();
    let clamped = clamp_timestamp(secs);
    get_time_str_from(clamped, nanos, date, time)
}

/// The whole-second part of a timestamp as a 32-bit value, or `default`
/// when it does not fit.
pub fn time_from_secs(secs: i64, default: i32) -> (r: i32)
    ensures
        r == if 0 <= secs <= i32::MAX as i64 {
            secs as i32
        } else {
            default
        },
{
    if 0 <= secs && secs <= i32::MAX as i64 {
        secs as i32
    } else {
        default
    }
}

/// The current Unix time in whole seconds as a 32-bit value, or `default`
/// when the clock reading does not fit.
pub fn get_time(default: i32) -> (r: i32) {
    let (secs, _nanos) = clock::now_timestamp();
    time_from_secs(secs, default)
}

} // verus!
