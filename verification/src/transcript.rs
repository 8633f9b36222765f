//! The per-connection audit transcript: an append-only log of rendered
//! lines with a composable prefix stack, a creation timestamp, and an
//! elapsed-time trailer. The rendered lines are held here; writing them to
//! a file is the caller's affair.

use vstd::prelude::*;
use vstd::string::{StrSliceExecFns, StringExecFns};
use vstd::arithmetic::div_mod::{lemma_div_denominator, lemma_fundamental_div_mod_converse};

use crate::clock;
use crate::str_util::Builder;
use crate::text;
use crate::util;

verus! {

/// Pieces joined by single spaces, a piece arriving while nothing has been
/// written yet taking no delimiter — the builder's semantics.
pub open spec fn spec_join_spaces(pieces: Seq<Seq<char>>) -> Seq<char>
    decreases pieces.len(),
{
    if pieces.len() == 0 {
        Seq::empty()
    } else {
        let rest = spec_join_spaces(pieces.drop_last());
        if rest.len() == 0 {
            pieces.last()
        } else {
            rest + " "@ + pieces.last()
        }
    }
}

/// One rendered log line: the timestamp in brackets, then the prefix
/// rendering whenever the stack is non-empty, then the logged text.
pub open spec fn spec_render_line(
    time: Seq<char>,
    prefixes: Seq<Seq<char>>,
    line: Seq<char>,
) -> Seq<char> {
    if prefixes.len() > 0 {
        "["@ + time + "] "@ + spec_join_spaces(prefixes) + " "@ + line
    } else {
        "["@ + time + "] "@ + line
    }
}

/// The lines that logging `line` once adds, under timestamp `time`:
/// multi-line text becomes one rendered line per physical line, and empty
/// text still yields one rendered line.
pub open spec fn spec_pushed_lines(
    prefixes: Seq<Seq<char>>,
    time: Seq<char>,
    line: Seq<char>,
) -> Seq<Seq<char>> {
    let pieces = if line.len() == 0 {
        seq![Seq::<char>::empty()]
    } else {
        text::lines_spec(line)
    };
    pieces.map_values(|l: Seq<char>| spec_render_line(time, prefixes, l))
}

/// How many rendered lines logging `line` once adds.
pub open spec fn spec_pushed_count(line: Seq<char>) -> int {
    if line.len() == 0 {
        1
    } else {
        text::lines_spec(line).len() as int
    }
}

/// The prefix stack after one pop: unchanged when already empty.
pub open spec fn spec_popped(p: Seq<Seq<char>>) -> Seq<Seq<char>> {
    if p.len() > 0 {
        p.drop_last()
    } else {
        p
    }
}

/// The prefix stack during a prefixed log call: a non-empty prefix is
/// pushed, while an empty one pops instead.
pub open spec fn spec_with_prefix(p: Seq<Seq<char>>, pre: Seq<char>) -> Seq<Seq<char>> {
    if pre.len() > 0 {
        p.push(pre)
    } else {
        spec_popped(p)
    }
}

/// The peer name with path-hostile characters replaced: every `.` and `:`
/// becomes `_`.
pub open spec fn spec_escaped_name(s: Seq<char>) -> Seq<char> {
    s.map_values(
        |c: char|
            if c == '.' || c == ':' {
                '_'
            } else {
                c
            },
    )
}

pub fn escape_stream_name(name: &str) -> (r: String)
    ensures
        r@ == spec_escaped_name(name@),
{
    let n = name.unicode_len();
    let mut out = String::new();
    let mut i: usize = 0;
    while i < n
        invariant
            0 <= i <= n,
            n == name@.len(),
            out@ == spec_escaped_name(name@.subrange(0, i as int)),
        decreases n - i,
    {
        let c = name.get_char(i);
        if c == '.' || c == ':' {
            out.append("_");
            proof {
                reveal_strlit("_");
            }
        } else {
            let piece = name.substring_char(i, i + 1);
            out.append(piece);
        }
        proof {
            assert(out@ =~= spec_escaped_name(name@.subrange(0, i as int + 1)));
        }
        i += 1;
    }
    proof {
        assert(name@.subrange(0, n as int) =~= name@);
    }
    out
}

/// The log file name for a connection: the (already escaped) peer name,
/// the creation timestamp, and — when disambiguation is needed — a
/// positive counter.
pub open spec fn spec_log_file_name(name: Seq<char>, time_int: int, counter: int) -> Seq<char> {
    if counter > 0 {
        name + "_"@ + text::dec_str_signed(time_int) + "_"@ + text::dec_str(counter) + ".log"@
    } else {
        name + "_"@ + text::dec_str_signed(time_int) + ".log"@
    }
}

pub fn log_file_name(name: &str, time_int: i32, counter: u32) -> (r: String)
    ensures
        r@ == spec_log_file_name(name@, time_int as int, counter as int),
{
    let mut out = name.to_owned();
    out.append("_");
    let stamp = text::i64_to_string(time_int as i64);
    out.append(stamp.as_str());
    if counter > 0 {
        out.append("_");
        let count = text::u64_to_string(counter as u64);
        out.append(count.as_str());
    }
    out.append(".log");
    proof {
        assert(out@ =~= spec_log_file_name(name@, time_int as int, counter as int));
    }
    out
}

/// The elapsed interval in nanoseconds, clamped at zero when the clock
/// went backwards.
pub open spec fn spec_elapsed_nanos(ss: int, sn: int, ns_: int, nn: int) -> int {
    let d = (ns_ * 1_000_000_000 + nn) - (ss * 1_000_000_000 + sn);
    if d < 0 {
        0
    } else {
        d
    }
}

/// The sub-second piece of the trailer: a count under the microsecond
/// threshold is shown in nanoseconds, anything larger in microseconds.
pub open spec fn spec_sub_second_value(nanos: int) -> int {
    if nanos < 100_000 {
        nanos
    } else {
        nanos / 1000
    }
}

pub open spec fn spec_sub_second_text(nanos: int) -> Seq<char> {
    if nanos < 100_000 {
        text::dec_str(nanos) + "ns"@
    } else {
        text::dec_str(nanos / 1000) + "\u{00B5}s"@
    }
}

/// The elapsed-time trailer: the largest applicable unit first — minutes,
/// then seconds, then the sub-second piece — with zero components omitted,
/// except that the sub-second piece stands alone, even at zero, when
/// nothing else was shown.
pub open spec fn spec_elapsed_summary(minutes: int, seconds: int, nanos: int) -> Seq<char> {
    let t1 = if minutes > 0 {
        text::dec_str(minutes) + "m"@
    } else {
        Seq::<char>::empty()
    };
    let t2 = if seconds > 0 {
        if t1.len() == 0 {
            text::dec_str(seconds) + "s"@
        } else {
            t1 + " "@ + text::dec_str(seconds) + "s"@
        }
    } else {
        t1
    };
    if spec_sub_second_value(nanos) > 0 || t2.len() == 0 {
        if t2.len() == 0 {
            spec_sub_second_text(nanos)
        } else {
            t2 + " "@ + spec_sub_second_text(nanos)
        }
    } else {
        t2
    }
}

/// Splits an elapsed interval into whole minutes, seconds within the
/// minute, and nanoseconds within the second.
pub fn elapsed_components(start_secs: i64, start_nanos: u32, now_secs: i64, now_nanos: u32) -> (r:
    (u64, u64, u64))
    requires
        0 <= start_secs,
        start_nanos < 1_000_000_000,
        0 <= now_secs,
        now_nanos < 1_000_000_000,
    ensures
        ({
            let d = spec_elapsed_nanos(
                start_secs as int,
                start_nanos as int,
                now_secs as int,
                now_nanos as int,
            );
            r.0 == d / 60_000_000_000 && r.1 == (d / 1_000_000_000) % 60 && r.2 == d
                % 1_000_000_000
        }),
        r.1 < 60,
        r.2 < 1_000_000_000,
{
    proof {
        let d = spec_elapsed_nanos(
            start_secs as int,
            start_nanos as int,
            now_secs as int,
            now_nanos as int,
        );
        assert(0 <= d);
    }
    if now_secs < start_secs || (now_secs == start_secs && now_nanos <= start_nanos) {
        proof {
            let d = spec_elapsed_nanos(
                start_secs as int,
                start_nanos as int,
                now_secs as int,
                now_nanos as int,
            );
            assert(d == 0);
        }
        return (0, 0, 0);
    }
    let mut ds: i64 = now_secs - start_secs;
    let mut dn: i64 = now_nanos as i64 - start_nanos as i64;
    if dn < 0 {
        ds = ds - 1;
        dn = dn + 1_000_000_000;
    }
    let minutes: u64 = (ds / 60) as u64;
    let seconds: u64 = (ds % 60) as u64;
    let nanos: u64 = dn as u64;
    proof {
        let d = spec_elapsed_nanos(
            start_secs as int,
            start_nanos as int,
            now_secs as int,
            now_nanos as int,
        );
        assert(d == ds * 1_000_000_000 + dn);
        lemma_fundamental_div_mod_converse(d, 1_000_000_000, ds as int, dn as int);
        lemma_div_denominator(d, 1_000_000_000, 60);
        assert(minutes == d / 60_000_000_000);
        assert(seconds == (d / 1_000_000_000) % 60);
        assert(nanos == d % 1_000_000_000);
    }
    (minutes, seconds, nanos)
}

/// Renders the elapsed-time trailer text from its components.
pub fn elapsed_summary(minutes: u64, seconds: u64, nanos: u64) -> (r: String)
    ensures
        r@ == spec_elapsed_summary(minutes as int, seconds as int, nanos as int),
{
    let delim = String::from_str(" ");
    proof {
        reveal_strlit(" ");
    }
    let mut builder = Builder::new(&delim);
    if minutes > 0 {
        let mut piece = text::u64_to_string(minutes);
        piece.append("m");
        builder.append(&piece);
    }
    if seconds > 0 {
        let mut piece = text::u64_to_string(seconds);
        piece.append("s");
        builder.append(&piece);
    }
    let small_unit: u64 = if nanos < 100_000 {
        nanos
    } else {
        nanos / 1000
    };
    let mut small_str = if nanos < 100_000 {
        text::u64_to_string(nanos)
    } else {
        text::u64_to_string(nanos / 1000)
    };
    if nanos < 100_000 {
        small_str.append("ns");
    } else {
        small_str.append("\u{00B5}s");
    }
    if small_unit > 0 || builder.is_empty() {
        builder.append(&small_str);
    }
    let out = builder.result;
    proof {
        assert(out@ =~= spec_elapsed_summary(minutes as int, seconds as int, nanos as int));
    }
    out
}

pub struct Transcript {
    lines: Vec<String>,
    prefixes: Vec<String>,
    start_secs: i64,
    start_nanos: u32,
}

impl Transcript {
    /// The rendered log lines, oldest first.
    pub closed spec fn spec_lines(self) -> Seq<Seq<char>> {
        self.lines.deep_view()
    }

    /// The prefix stack, oldest first.
    pub closed spec fn spec_prefixes(self) -> Seq<Seq<char>> {
        self.prefixes.deep_view()
    }

    /// The creation instant: whole seconds and nanoseconds within the
    /// second.
    pub closed spec fn spec_start(self) -> (int, int) {
        (self.start_secs as int, self.start_nanos as int)
    }

    pub open spec fn wf(self) -> bool {
        0 <= self.spec_start().0 <= clock::MAX_DATE_SECS as int && 0 <= self.spec_start().1
            < 2_000_000_000
    }

    /// Creates the transcript for a connection with the given peer name:
    /// the prefix stack starts with the name, and introductory lines
    /// naming the creation time and the peer are logged.
    pub fn new(who: &str) -> (r: Transcript)
        ensures
            r.wf(),
            r.spec_prefixes() == seq![who@],
            r.spec_lines().len() >= 3,
    {
        let (now_secs, now_nanos) = clock::now_timestamp();
        let start_secs = util::clamp_timestamp(now_secs);
        let mut prefixes: Vec<String> = Vec::new();
        prefixes.push(who.to_owned());
        let mut t = Transcript { lines: Vec::new(), prefixes, start_secs, start_nanos: now_nanos };
        proof {
            assert(t.spec_prefixes() =~= seq![who@]);
        }
        t.push("New transcript for HTTP connection");
        let mut line_at = String::from_str(" at ");
        let stamp = util::get_time_str_from(start_secs, now_nanos, true, true);
        line_at.append(stamp.as_str());
        line_at.append(" UTC");
        t.push(line_at.as_str());
        let mut line_by = String::from_str(" by ");
        line_by.append(who);
        t.push(line_by.as_str());
        proof {
            reveal_strlit(" at ");
            reveal_strlit(" by ");
        }
        t
    }

    /// Renders the current prefix stack, pieces joined by spaces, oldest
    /// first; `None` when the stack is empty.
    pub fn get_prefix(&self) -> (r: Option<String>)
        ensures
            r matches Some(p) ==> self.spec_prefixes().len() > 0 && p@ == spec_join_spaces(
                self.spec_prefixes(),
            ),
            r is None ==> self.spec_prefixes().len() == 0,
    {
        let n = self.prefixes.len();
        if n == 0 {
            return None;
        }
        let delim = String::from_str(" ");
        proof {
            reveal_strlit(" ");
        }
        let mut builder = Builder::new(&delim);
        let mut i: usize = 0;
        while i < n
            invariant
                0 <= i <= n,
                n == self.prefixes@.len(),
                builder.delimiter@ == " "@,
                builder.result@ == spec_join_spaces(self.spec_prefixes().subrange(0, i as int)),
            decreases n - i,
        {
            builder.append(&self.prefixes[i]);
            proof {
                let ps = self.spec_prefixes();
                assert(ps.subrange(0, i as int + 1).drop_last() =~= ps.subrange(0, i as int));
                assert(ps.subrange(0, i as int + 1).last() == ps[i as int]);
            }
            i += 1;
        }
        proof {
            assert(self.spec_prefixes().subrange(0, n as int) =~= self.spec_prefixes());
        }
        Some(builder.result)
    }

    /// Pushes a prefix onto the stack; an empty prefix pops instead.
    pub fn add_prefix(&mut self, prefix: &str)
        ensures
            final(self).spec_lines() == old(self).spec_lines(),
            final(self).spec_start() == old(self).spec_start(),
            final(self).spec_prefixes() == spec_with_prefix(old(self).spec_prefixes(), prefix@),
    {
        if prefix.is_empty() {
            self.pop_prefix();
            return ;
        }
        self.prefixes.push(prefix.to_owned());
        proof {
            assert(self.spec_prefixes() =~= old(self).spec_prefixes().push(prefix@));
        }
    }

    /// Pops the newest prefix; does nothing on an empty stack.
    pub fn pop_prefix(&mut self)
        ensures
            final(self).spec_lines() == old(self).spec_lines(),
            final(self).spec_start() == old(self).spec_start(),
            final(self).spec_prefixes() == spec_popped(old(self).spec_prefixes()),
    {
        if self.prefixes.len() > 0 {
            self.prefixes.pop();
            proof {
                assert(self.spec_prefixes() =~= spec_popped(old(self).spec_prefixes()));
            }
        }
    }

    fn push_int(&mut self, time: &String, line: &str)
        ensures
            final(self).spec_prefixes() == old(self).spec_prefixes(),
            final(self).spec_start() == old(self).spec_start(),
            final(self).spec_lines() == old(self).spec_lines().push(
                spec_render_line(time@, old(self).spec_prefixes(), line@),
            ),
    {
        let mut data = String::from_str("[");
        data.append(time.as_str());
        data.append("] ");
        match self.get_prefix() {
            Some(prefix) => {
                data.append(prefix.as_str());
                data.append(" ");
                data.append(line);
                proof {
                    reveal_strlit(" ");
                    assert(data@ =~= spec_render_line(time@, self.spec_prefixes(), line@));
                }
            },
            None => {
                data.append(line);
                proof {
                    assert(data@ =~= spec_render_line(time@, self.spec_prefixes(), line@));
                }
            },
        }
        self.lines.push(data);
        proof {
            assert(self.spec_lines() =~= old(self).spec_lines().push(
                spec_render_line(time@, old(self).spec_prefixes(), line@),
            ));
        }
    }

    /// Logs a line: multi-line text is split and each physical line is
    /// written with the same timestamp and the current prefix rendering.
    /// Which timestamp text is used is up to the clock.
    pub fn push(&mut self, line: &str)
        ensures
            final(self).spec_prefixes() == old(self).spec_prefixes(),
            final(self).spec_start() == old(self).spec_start(),
            exists|t: Seq<char>|
                final(self).spec_lines() == old(self).spec_lines() + spec_pushed_lines(
                    old(self).spec_prefixes(),
                    t,
                    line@,
                ),
    {
        let now = util::get_time_str(false, true);
        if !line.is_empty() {
            let pieces = text::split_lines(line);
            let ghost target = spec_pushed_lines(old(self).spec_prefixes(), now@, line@);
            let n = pieces.len();
            let mut k: usize = 0;
            while k < n
                invariant
                    0 <= k <= n,
                    n == pieces@.len(),
                    pieces@.map_values(|t: String| t@) == text::lines_spec(line@),
                    line@.len() > 0,
                    target == spec_pushed_lines(old(self).spec_prefixes(), now@, line@),
                    self.spec_prefixes() == old(self).spec_prefixes(),
                    self.spec_start() == old(self).spec_start(),
                    self.spec_lines() == old(self).spec_lines() + target.subrange(0, k as int),
                decreases n - k,
            {
                self.push_int(&now, pieces[k].as_str());
                proof {
                    assert(target[k as int] == spec_render_line(
                        now@,
                        old(self).spec_prefixes(),
                        pieces@.map_values(|t: String| t@)[k as int],
                    ));
                    assert(self.spec_lines() =~= old(self).spec_lines() + target.subrange(
                        0,
                        k as int + 1,
                    ));
                }
                k += 1;
            }
            proof {
                assert(target.subrange(0, n as int) =~= target);
            }
        } else {
            self.push_int(&now, "");
            proof {
                reveal_strlit("");
                assert(spec_pushed_lines(old(self).spec_prefixes(), now@, line@)
                    =~= seq![spec_render_line(now@, old(self).spec_prefixes(), Seq::<char>::empty())]);
                assert(self.spec_lines() =~= old(self).spec_lines() + spec_pushed_lines(
                    old(self).spec_prefixes(),
                    now@,
                    line@,
                ));
            }
        }
    }

    /// Logs one line under an extra prefix, pushed for the call and popped
    /// again afterwards.
    pub fn push_with_prefix(&mut self, prefix: &str, line: &str)
        ensures
            final(self).spec_start() == old(self).spec_start(),
            final(self).spec_prefixes() == spec_popped(
                spec_with_prefix(old(self).spec_prefixes(), prefix@),
            ),
            prefix@.len() > 0 ==> final(self).spec_prefixes() == old(self).spec_prefixes(),
            exists|t: Seq<char>|
                final(self).spec_lines() == old(self).spec_lines() + spec_pushed_lines(
                    spec_with_prefix(old(self).spec_prefixes(), prefix@),
                    t,
                    line@,
                ),
    {
        self.add_prefix(prefix);
        self.push(line);
        self.pop_prefix();
        proof {
            if prefix@.len() > 0 {
                assert(spec_popped(old(self).spec_prefixes().push(prefix@)) =~= old(
                    self,
                ).spec_prefixes());
            }
        }
    }

    /// Ends the transcript: computes the elapsed time since creation and
    /// logs the trailer naming it, preceded by three blank lines.
    pub fn close(&mut self)
        ensures
            final(self).spec_prefixes() == old(self).spec_prefixes(),
            exists|t: Seq<char>, m: int, s: int, ns: int|
                0 <= m && 0 <= s < 60 && 0 <= ns < 1_000_000_000 && final(self).spec_lines()
                    == old(self).spec_lines() + spec_pushed_lines(
                    old(self).spec_prefixes(),
                    t,
                    "\n\n\nTranscript ended after "@ + spec_elapsed_summary(m, s, ns),
                ),
    {
        let (now_secs_raw, now_nanos_raw) = clock::now_timestamp();
        let now_secs = util::clamp_timestamp(now_secs_raw);
        let now_nanos = if now_nanos_raw < 1_000_000_000 {
            now_nanos_raw
        } else {
            999_999_999
        };
        let start_secs = util::clamp_timestamp(self.start_secs);
        let start_nanos = if self.start_nanos < 1_000_000_000 {
            self.start_nanos
        } else {
            999_999_999
        };
        let (m, s, ns) = elapsed_components(start_secs, start_nanos, now_secs, now_nanos);
        let summary = elapsed_summary(m, s, ns);
        let mut line = String::from_str("\n\n\nTranscript ended after ");
        line.append(summary.as_str());
        self.push(line.as_str());
        proof {
            assert(line@ =~= "\n\n\nTranscript ended after "@ + spec_elapsed_summary(
                m as int,
                s as int,
                ns as int,
            ));
        }
    }

    /// The rendered log lines, oldest first, for writing out.
    pub fn rendered_lines(&self) -> (r: &Vec<String>)
        ensures
            r.deep_view() == self.spec_lines(),
    {
        &self.lines
    }
}

} // verus!
