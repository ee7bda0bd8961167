//! Request logging: one line per request, formatted after the response is
//! known, appended whole to the day's file by a single serialized writer.
//! The file name carries the date at completion time. The proofs here show
//! the lines are well formed — each ends in its one and only newline — so
//! a burst of appends yields exactly one line per request.
use vstd::prelude::*;

use crate::decfmt::dec_digits;
use crate::decfmt::dec_pad2;
use crate::decfmt::dec_pad4;
use crate::decfmt::lemma_dec_digits_newline_free;
use crate::decfmt::u64_to_dec;
use crate::decfmt::u64_to_dec_pad2;
use crate::decfmt::u64_to_dec_pad4;

verus! {

/// A wall-clock instant, broken into calendar fields.
#[derive(Clone, Copy, Debug)]
pub struct ClockTime {
    pub year: u16,
    pub month: u8,
    pub day: u8,
    pub hour: u8,
    pub minute: u8,
    pub second: u8,
}

/// The `YYYY-MM-DD HH:MM:SS` rendering of an instant.
pub open spec fn timestamp_text(t: ClockTime) -> Seq<char> {
    dec_pad4(t.year as nat) + seq!['-'] + dec_pad2(t.month as nat) + seq!['-'] + dec_pad2(
        t.day as nat,
    ) + seq![' '] + dec_pad2(t.hour as nat) + seq![':'] + dec_pad2(t.minute as nat) + seq![':']
        + dec_pad2(t.second as nat)
}

/// The `YYYY-MM-DD.log` file name for the day of an instant.
pub open spec fn log_file_name_text(t: ClockTime) -> Seq<char> {
    dec_pad4(t.year as nat) + seq!['-'] + dec_pad2(t.month as nat) + seq!['-'] + dec_pad2(
        t.day as nat,
    ) + ".log"@
}

impl ClockTime {
    /// Renders `YYYY-MM-DD HH:MM:SS`.
    pub fn format_timestamp(&self) -> (r: String)
        ensures
            r@ == timestamp_text(*self),
    {
        proof {
            reveal_strlit("-");
            reveal_strlit(" ");
            reveal_strlit(":");
        }
        let mut s = u64_to_dec_pad4(self.year as u64);
        s.append("-");
        let p = u64_to_dec_pad2(self.month as u64);
        s.append(p.as_str());
        s.append("-");
        let p = u64_to_dec_pad2(self.day as u64);
        s.append(p.as_str());
        s.append(" ");
        let p = u64_to_dec_pad2(self.hour as u64);
        s.append(p.as_str());
        s.append(":");
        let p = u64_to_dec_pad2(self.minute as u64);
        s.append(p.as_str());
        s.append(":");
        let p = u64_to_dec_pad2(self.second as u64);
        s.append(p.as_str());
        proof {
            assert(s@ =~= timestamp_text(*self));
        }
        s
    }

    /// The name of the log file for this instant's day: the completion
    /// day's file, whatever day the request started on.
    pub fn log_file_name(&self) -> (r: String)
        ensures
            r@ == log_file_name_text(*self),
    {
        proof {
            reveal_strlit("-");
        }
        let mut s = u64_to_dec_pad4(self.year as u64);
        s.append("-");
        let p = u64_to_dec_pad2(self.month as u64);
        s.append(p.as_str());
        s.append("-");
        let p = u64_to_dec_pad2(self.day as u64);
        s.append(p.as_str());
        s.append(".log");
        proof {
            assert(s@ =~= log_file_name_text(*self));
        }
        s
    }
}

/// The fields captured before the handler runs.
pub struct PendingRequestLog {
    pub method: String,
    pub path: String,
    pub peer: String,
}

/// One finished request, ready to be formatted: the pre-call fields plus
/// what only the response tells.
pub struct RequestLogEntry {
    pub timestamp: ClockTime,
    pub peer: String,
    pub method: String,
    pub path: String,
    pub status: u16,
    pub duration_ms: u64,
}

impl PendingRequestLog {
    /// Captures the request-side fields, before anything runs.
    pub fn begin(method: String, path: String, peer: String) -> (r: Self)
        ensures
            r.method == method,
            r.path == path,
            r.peer == peer,
    {
        PendingRequestLog { method, path, peer }
    }

    /// Completes the entry once the response is known.
    pub fn complete(self, status: u16, duration_ms: u64, now: ClockTime) -> (r: RequestLogEntry)
        ensures
            r.method == self.method,
            r.path == self.path,
            r.peer == self.peer,
            r.status == status,
            r.duration_ms == duration_ms,
            r.timestamp == now,
    {
        RequestLogEntry {
            timestamp: now,
            peer: self.peer,
            method: self.method,
            path: self.path,
            status,
            duration_ms,
        }
    }
}

/// Everything of a log line but its closing newline.
pub open spec fn log_line_body(e: RequestLogEntry) -> Seq<char> {
    seq!['['] + timestamp_text(e.timestamp) + seq![']', ' '] + e.peer@ + seq![' '] + e.method@
        + seq![' '] + e.path@ + seq![' '] + dec_digits(e.status as nat) + seq![' '] + dec_digits(
        e.duration_ms as nat,
    ) + seq!['m', 's']
}

/// One log line: `[timestamp] peer method path status durationms`, closed
/// by a newline.
pub open spec fn log_line_text(e: RequestLogEntry) -> Seq<char> {
    log_line_body(e) + seq!['\n']
}

impl RequestLogEntry {
    /// Renders this entry's line.
    pub fn format_line(&self) -> (r: String)
        ensures
            r@ == log_line_text(*self),
    {
        proof {
            reveal_strlit("[");
            reveal_strlit("] ");
            reveal_strlit(" ");
            reveal_strlit("ms\n");
        }
        let mut s = String::new();
        s.append("[");
        let ts = self.timestamp.format_timestamp();
        s.append(ts.as_str());
        s.append("] ");
        s.append(self.peer.as_str());
        s.append(" ");
        s.append(self.method.as_str());
        s.append(" ");
        s.append(self.path.as_str());
        s.append(" ");
        let st = u64_to_dec(self.status as u64);
        s.append(st.as_str());
        s.append(" ");
        let du = u64_to_dec(self.duration_ms);
        s.append(du.as_str());
        s.append("ms\n");
        proof {
            assert(s@ =~= log_line_text(*self));
        }
        s
    }
}

/// No newline anywhere in `s`.
pub open spec fn newline_free(s: Seq<char>) -> bool {
    forall|i: int| 0 <= i < s.len() ==> s[i] != '\n'
}

/// A well-formed log line: non-empty, ending in its one and only newline.
pub open spec fn well_formed_line(s: Seq<char>) -> bool {
    &&& s.len() > 0
    &&& s[s.len() - 1] == '\n'
    &&& newline_free(s.subrange(0, s.len() - 1))
}

/// Newline-freeness carries over concatenation.
pub proof fn lemma_newline_free_concat(a: Seq<char>, b: Seq<char>)
    requires
        newline_free(a),
        newline_free(b),
    ensures
        newline_free(a + b),
{
    assert forall|i: int| 0 <= i < (a + b).len() implies (a + b)[i] != '\n' by {
        if i < a.len() {
            assert((a + b)[i] == a[i]);
        } else {
            assert((a + b)[i] == b[i - a.len()]);
        }
    }
}

/// A padded decimal rendering holds digits only.
proof fn lemma_dec_pad2_newline_free(n: nat)
    ensures
        newline_free(dec_pad2(n)),
{
    lemma_dec_digits_newline_free(n);
    if n < 10 {
        lemma_newline_free_concat(seq!['0'], dec_digits(n));
    }
}

proof fn lemma_dec_pad4_newline_free(n: nat)
    ensures
        newline_free(dec_pad4(n)),
{
    lemma_dec_digits_newline_free(n);
    if n < 10 {
        lemma_newline_free_concat(seq!['0', '0', '0'], dec_digits(n));
    } else if n < 100 {
        lemma_newline_free_concat(seq!['0', '0'], dec_digits(n));
    } else if n < 1000 {
        lemma_newline_free_concat(seq!['0'], dec_digits(n));
    }
}

/// A timestamp rendering never holds a newline.
pub proof fn lemma_timestamp_newline_free(t: ClockTime)
    ensures
        newline_free(timestamp_text(t)),
{
    lemma_dec_pad4_newline_free(t.year as nat);
    lemma_dec_pad2_newline_free(t.month as nat);
    lemma_dec_pad2_newline_free(t.day as nat);
    lemma_dec_pad2_newline_free(t.hour as nat);
    lemma_dec_pad2_newline_free(t.minute as nat);
    lemma_dec_pad2_newline_free(t.second as nat);
    lemma_newline_free_concat(dec_pad4(t.year as nat), seq!['-']);
    lemma_newline_free_concat(dec_pad4(t.year as nat) + seq!['-'], dec_pad2(t.month as nat));
    lemma_newline_free_concat(
        dec_pad4(t.year as nat) + seq!['-'] + dec_pad2(t.month as nat),
        seq!['-'],
    );
    lemma_newline_free_concat(
        dec_pad4(t.year as nat) + seq!['-'] + dec_pad2(t.month as nat) + seq!['-'],
        dec_pad2(t.day as nat),
    );
    lemma_newline_free_concat(
        dec_pad4(t.year as nat) + seq!['-'] + dec_pad2(t.month as nat) + seq!['-'] + dec_pad2(
            t.day as nat,
        ),
        seq![' '],
    );
    lemma_newline_free_concat(
        dec_pad4(t.year as nat) + seq!['-'] + dec_pad2(t.month as nat) + seq!['-'] + dec_pad2(
            t.day as nat,
        ) + seq![' '],
        dec_pad2(t.hour as nat),
    );
    lemma_newline_free_concat(
        dec_pad4(t.year as nat) + seq!['-'] + dec_pad2(t.month as nat) + seq!['-'] + dec_pad2(
            t.day as nat,
        ) + seq![' '] + dec_pad2(t.hour as nat),
        seq![':'],
    );
    lemma_newline_free_concat(
        dec_pad4(t.year as nat) + seq!['-'] + dec_pad2(t.month as nat) + seq!['-'] + dec_pad2(
            t.day as nat,
        ) + seq![' '] + dec_pad2(t.hour as nat) + seq![':'],
        dec_pad2(t.minute as nat),
    );
    lemma_newline_free_concat(
        dec_pad4(t.year as nat) + seq!['-'] + dec_pad2(t.month as nat) + seq!['-'] + dec_pad2(
            t.day as nat,
        ) + seq![' '] + dec_pad2(t.hour as nat) + seq![':'] + dec_pad2(t.minute as nat),
        seq![':'],
    );
    lemma_newline_free_concat(
        dec_pad4(t.year as nat) + seq!['-'] + dec_pad2(t.month as nat) + seq!['-'] + dec_pad2(
            t.day as nat,
        ) + seq![' '] + dec_pad2(t.hour as nat) + seq![':'] + dec_pad2(t.minute as nat)
            + seq![':'],
        dec_pad2(t.second as nat),
    );
}

/// When the request-side fields carry no newline, the rendered line is
/// well formed: exactly one newline, at its end.
pub proof fn lemma_log_line_well_formed(e: RequestLogEntry)
    requires
        newline_free(e.peer@),
        newline_free(e.method@),
        newline_free(e.path@),
    ensures
        well_formed_line(log_line_text(e)),
{
    lemma_timestamp_newline_free(e.timestamp);
    lemma_dec_digits_newline_free(e.status as nat);
    lemma_dec_digits_newline_free(e.duration_ms as nat);
    let p1 = seq!['['] + timestamp_text(e.timestamp);
    lemma_newline_free_concat(seq!['['], timestamp_text(e.timestamp));
    let p2 = p1 + seq![']', ' '];
    lemma_newline_free_concat(p1, seq![']', ' ']);
    let p3 = p2 + e.peer@;
    lemma_newline_free_concat(p2, e.peer@);
    let p4 = p3 + seq![' '];
    lemma_newline_free_concat(p3, seq![' ']);
    let p5 = p4 + e.method@;
    lemma_newline_free_concat(p4, e.method@);
    let p6 = p5 + seq![' '];
    lemma_newline_free_concat(p5, seq![' ']);
    let p7 = p6 + e.path@;
    lemma_newline_free_concat(p6, e.path@);
    let p8 = p7 + seq![' '];
    lemma_newline_free_concat(p7, seq![' ']);
    let p9 = p8 + dec_digits(e.status as nat);
    lemma_newline_free_concat(p8, dec_digits(e.status as nat));
    let p10 = p9 + seq![' '];
    lemma_newline_free_concat(p9, seq![' ']);
    let p11 = p10 + dec_digits(e.duration_ms as nat);
    lemma_newline_free_concat(p10, dec_digits(e.duration_ms as nat));
    let p12 = p11 + seq!['m', 's'];
    lemma_newline_free_concat(p11, seq!['m', 's']);
    assert(log_line_body(e) == p12);
    let line = log_line_text(e);
    assert(line[line.len() - 1] == '\n');
    assert(line.subrange(0, line.len() - 1) =~= log_line_body(e));
}

/// How many newline characters `s` holds.
pub open spec fn count_newlines(s: Seq<char>) -> nat
    decreases s.len(),
{
    if s.len() == 0 {
        0
    } else {
        (if s[0] == '\n' {
            1nat
        } else {
            0nat
        }) + count_newlines(s.drop_first())
    }
}

/// Newline counts add over concatenation.
pub proof fn lemma_count_newlines_concat(a: Seq<char>, b: Seq<char>)
    ensures
        count_newlines(a + b) == count_newlines(a) + count_newlines(b),
    decreases a.len(),
{
    if a.len() == 0 {
        assert(a + b =~= b);
    } else {
        assert((a + b).drop_first() =~= a.drop_first() + b);
        lemma_count_newlines_concat(a.drop_first(), b);
    }
}

/// A newline-free sequence counts zero newlines.
pub proof fn lemma_newline_free_count(s: Seq<char>)
    requires
        newline_free(s),
    ensures
        count_newlines(s) == 0,
    decreases s.len(),
{
    if s.len() > 0 {
        lemma_newline_free_count(s.drop_first());
    }
}

/// A well-formed line counts exactly one newline.
pub proof fn lemma_well_formed_line_count(s: Seq<char>)
    requires
        well_formed_line(s),
    ensures
        count_newlines(s) == 1,
{
    let body = s.subrange(0, s.len() - 1);
    assert(s =~= body + seq!['\n']);
    lemma_count_newlines_concat(body, seq!['\n']);
    lemma_newline_free_count(body);
    assert(seq!['\n'].drop_first() =~= Seq::<char>::empty());
    assert(count_newlines(Seq::<char>::empty()) == 0);
    assert(count_newlines(seq!['\n']) == 1);
}

/// The characters of several lines written one after the other.
pub open spec fn concat_all(lines: Seq<Seq<char>>) -> Seq<char>
    decreases lines.len(),
{
    if lines.len() == 0 {
        Seq::empty()
    } else {
        lines[0] + concat_all(lines.drop_first())
    }
}

/// A burst of appends: the characters of `n` well-formed lines, written
/// whole and one after the other, hold exactly `n` newlines — `n` lines
/// land in the file, none interleaved or torn.
pub proof fn lemma_log_burst_well_formed(lines: Seq<Seq<char>>)
    requires
        forall|i: int| 0 <= i < lines.len() ==> well_formed_line(#[trigger] lines[i]),
    ensures
        count_newlines(concat_all(lines)) == lines.len(),
    decreases lines.len(),
{
    if lines.len() > 0 {
        lemma_well_formed_line_count(lines[0]);
        lemma_count_newlines_concat(lines[0], concat_all(lines.drop_first()));
        lemma_log_burst_well_formed(lines.drop_first());
    }
}

/// The logging middleware: the outermost layer, wrapping the guard, so
/// rejected requests are logged too.
pub struct LoggingMiddleware;

/// The serialized writer for one log sink: every entry is rendered to one
/// line and appended whole, so concurrent requests hand their entries to
/// one appender rather than interleave writes.
pub struct LoggingMiddlewareService {
    pub lines: Vec<String>,
}

impl LoggingMiddlewareService {
    /// Every buffered line is well formed.
    pub open spec fn wf(&self) -> bool {
        forall|i: int| 0 <= i < self.lines@.len() ==> well_formed_line(#[trigger] self.lines@[i]@)
    }

    /// An empty writer.
    pub fn new() -> (r: Self)
        ensures
            r.lines@.len() == 0,
            r.wf(),
    {
        LoggingMiddlewareService { lines: Vec::new() }
    }

    /// Renders `e` and appends its line, whole. When the entry's fields
    /// are newline-free — every header-derived field of an HTTP request is
    /// — the buffer stays a sequence of well-formed lines.
    pub fn append_entry(&mut self, e: &RequestLogEntry) -> (line: String)
        ensures
            line@ == log_line_text(*e),
            final(self).lines@ == old(self).lines@.push(line),
            old(self).wf() && newline_free(e.peer@) && newline_free(e.method@) && newline_free(
                e.path@,
            ) ==> final(self).wf(),
    {
        let line = e.format_line();
        let stored = line.clone();
        self.lines.push(stored);
        proof {
            if old(self).wf() && newline_free(e.peer@) && newline_free(e.method@) && newline_free(
                e.path@,
            ) {
                lemma_log_line_well_formed(*e);
                assert forall|i: int| 0 <= i < self.lines@.len() implies well_formed_line(
                    #[trigger] self.lines@[i]@,
                ) by {
                    if i < old(self).lines@.len() {
                        assert(self.lines@[i] == old(self).lines@[i]);
                    } else {
                        assert(self.lines@[i]@ == log_line_text(*e));
                    }
                }
            }
        }
        line
    }
}

} // verus!
