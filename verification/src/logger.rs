//! `@actions/core`-style workflow commands.
//!
//! The runner reads specially formatted stdout lines as workflow commands.
//! This module covers `info` (a plain line), `warning` and `error`
//! (`::warning::` / `::error::` followed by the escaped message), and
//! `set_failed`, which reports an error.

use vstd::prelude::*;

use crate::console::{stdout_handle, stdout_write_line, LineOut};
use crate::text::{chars_of, concat2, has_substring, push_char, contains_str};

verus! {

/// How one character of a command's data is written: `%`, carriage return
/// and line feed are percent-escaped, everything else is kept.
pub open spec fn escape_char(c: char) -> Seq<char> {
    if c == '%' {
        seq!['%', '2', '5']
    } else if c == '\r' {
        seq!['%', '0', 'D']
    } else if c == '\n' {
        seq!['%', '0', 'A']
    } else {
        seq![c]
    }
}

/// `s` with each character escaped by [`escape_char`].
pub open spec fn escape_data_spec(s: Seq<char>) -> Seq<char>
    decreases s.len(),
{
    if s.len() == 0 {
        Seq::empty()
    } else {
        escape_data_spec(s.drop_last()) + escape_char(s.last())
    }
}

/// Escapes the characters that have a meaning inside workflow command data.
pub fn escape_data(value: &str) -> (r: String)
    ensures
        r@ == escape_data_spec(value@),
{
    let chars = chars_of(value);
    let mut out = String::new();
    let mut i: usize = 0;
    while i < chars.len()
        invariant
            chars@ == value@,
            i <= chars@.len(),
            out@ == escape_data_spec(chars@.subrange(0, i as int)),
        decreases chars@.len() - i,
    {
        let c = chars[i];
        if c == '%' {
            push_char(&mut out, '%');
            push_char(&mut out, '2');
            push_char(&mut out, '5');
        } else if c == '\r' {
            push_char(&mut out, '%');
            push_char(&mut out, '0');
            push_char(&mut out, 'D');
        } else if c == '\n' {
            push_char(&mut out, '%');
            push_char(&mut out, '0');
            push_char(&mut out, 'A');
        } else {
            push_char(&mut out, c);
        }
        let ghost next = chars@.subrange(0, i + 1);
        assert(next.drop_last() =~= chars@.subrange(0, i as int));
        assert(out@ =~= escape_data_spec(next));
        i = i + 1;
    }
    assert(chars@.subrange(0, i as int) =~= value@);
    out
}

/// An escaped message holds no line break, so it cannot start a new
/// workflow command on the runner.
pub proof fn law_escaped_data_has_no_line_break(s: Seq<char>)
    ensures
        !escape_data_spec(s).contains('\n'),
        !escape_data_spec(s).contains('\r'),
    decreases s.len(),
{
    if s.len() > 0 {
        law_escaped_data_has_no_line_break(s.drop_last());
        let a = escape_data_spec(s.drop_last());
        let b = escape_char(s.last());
        assert forall|i: int| 0 <= i < (a + b).len() implies (a + b)[i] != '\n' && (a + b)[i]
            != '\r' by {
            if i < a.len() {
                assert((a + b)[i] == a[i]);
            } else {
                assert((a + b)[i] == b[i - a.len()]);
            }
        }
    }
}

/// Decodes workflow command data: `%25`, `%0D` and `%0A` stand for `%`,
/// carriage return and line feed; every other character stands for itself.
pub open spec fn unescape_data_spec(s: Seq<char>) -> Seq<char>
    decreases s.len(),
{
    if s.len() == 0 {
        Seq::empty()
    } else if s.len() >= 3 && s[0] == '%' && s[1] == '2' && s[2] == '5' {
        seq!['%'] + unescape_data_spec(s.subrange(3, s.len() as int))
    } else if s.len() >= 3 && s[0] == '%' && s[1] == '0' && s[2] == 'D' {
        seq!['\r'] + unescape_data_spec(s.subrange(3, s.len() as int))
    } else if s.len() >= 3 && s[0] == '%' && s[1] == '0' && s[2] == 'A' {
        seq!['\n'] + unescape_data_spec(s.subrange(3, s.len() as int))
    } else {
        seq![s[0]] + unescape_data_spec(s.drop_first())
    }
}

/// Escaping distributes over concatenation.
pub proof fn lemma_escape_data_concat(a: Seq<char>, b: Seq<char>)
    ensures
        escape_data_spec(a + b) == escape_data_spec(a) + escape_data_spec(b),
    decreases b.len(),
{
    if b.len() == 0 {
        assert(a + b =~= a);
        assert(escape_data_spec(a) + escape_data_spec(b) =~= escape_data_spec(a));
    } else {
        assert((a + b).drop_last() =~= a + b.drop_last());
        assert((a + b).last() == b.last());
        lemma_escape_data_concat(a, b.drop_last());
        assert(escape_data_spec(a) + escape_data_spec(b.drop_last()) + escape_char(b.last())
            =~= escape_data_spec(a) + (escape_data_spec(b.drop_last()) + escape_char(b.last())));
    }
}

/// Decoding an escaped character in front of anything gives the character
/// back in front of the decoded rest.
proof fn lemma_unescape_escaped_char(c: char, rest: Seq<char>)
    ensures
        unescape_data_spec(escape_char(c) + rest) == seq![c] + unescape_data_spec(rest),
{
    let e = escape_char(c) + rest;
    if c == '%' || c == '\r' || c == '\n' {
        assert(e.subrange(3, e.len() as int) =~= rest);
    } else {
        assert(e.drop_first() =~= rest);
    }
}

/// Escaping loses nothing: decoding the escaped data gives the original
/// message back.
pub proof fn law_escape_data_round_trip(s: Seq<char>)
    ensures
        unescape_data_spec(escape_data_spec(s)) == s,
    decreases s.len(),
{
    if s.len() > 0 {
        let rest = s.drop_first();
        assert(s =~= seq![s[0]] + rest);
        lemma_escape_data_concat(seq![s[0]], rest);
        assert(seq![s[0]].drop_last() =~= Seq::<char>::empty());
        assert(seq![s[0]].last() == s[0]);
        assert(escape_data_spec(Seq::<char>::empty()) =~= Seq::<char>::empty());
        assert(escape_data_spec(seq![s[0]]) == escape_data_spec(seq![s[0]].drop_last())
            + escape_char(s[0]));
        assert(escape_data_spec(seq![s[0]]) =~= escape_char(s[0]));
        lemma_unescape_escaped_char(s[0], escape_data_spec(rest));
        law_escape_data_round_trip(rest);
    }
}

/// Every `%` in escaped data begins one of the three escapes `%25`, `%0D`
/// and `%0A`.
pub proof fn law_escaped_percent_begins_an_escape(s: Seq<char>)
    ensures
        ({
            let r = escape_data_spec(s);
            forall|i: int|
                0 <= i < r.len() && #[trigger] r[i] == '%' ==> i + 2 < r.len() && ((r[i + 1] == '2'
                    && r[i + 2] == '5') || (r[i + 1] == '0' && r[i + 2] == 'D') || (r[i + 1] == '0'
                    && r[i + 2] == 'A'))
        }),
    decreases s.len(),
{
    if s.len() > 0 {
        law_escaped_percent_begins_an_escape(s.drop_last());
        let a = escape_data_spec(s.drop_last());
        let b = escape_char(s.last());
        let r = a + b;
        assert(escape_data_spec(s) == r);
        assert forall|i: int|
            0 <= i < r.len() && #[trigger] r[i] == '%' implies i + 2 < r.len() && ((r[i + 1] == '2'
                && r[i + 2] == '5') || (r[i + 1] == '0' && r[i + 2] == 'D') || (r[i + 1] == '0'
                && r[i + 2] == 'A')) by {
            if i < a.len() {
                assert(r[i] == a[i]);
                assert(a[i] == '%');
                assert(r[i + 1] == a[i + 1]);
                assert(r[i + 2] == a[i + 2]);
            } else {
                assert(r[i] == b[i - a.len()]);
                assert(r[i + 1] == b[i + 1 - a.len()]);
                assert(r[i + 2] == b[i + 2 - a.len()]);
            }
        }
    }
}

/// Severity of a log line.
#[derive(Debug, Clone, Copy, PartialEq, Eq, Structural)]
pub enum LogLevel {
    Info,
    Warning,
    Error,
}

/// One line for the workflow log.
#[derive(Debug, Clone)]
pub struct LogLine {
    pub level: LogLevel,
    pub message: String,
}

/// The stdout line that reports `msg` at `level`: info messages as they
/// are, warnings and errors as escaped workflow commands.
pub open spec fn workflow_command_spec(level: LogLevel, msg: Seq<char>) -> Seq<char> {
    match level {
        LogLevel::Info => msg,
        LogLevel::Warning => "::warning::"@ + escape_data_spec(msg),
        LogLevel::Error => "::error::"@ + escape_data_spec(msg),
    }
}

/// Formats `msg` as the workflow command for `level`.
pub fn workflow_command(level: LogLevel, msg: &str) -> (r: String)
    ensures
        r@ == workflow_command_spec(level, msg@),
{
    match level {
        LogLevel::Info => String::from_str(msg),
        LogLevel::Warning => {
            let e = escape_data(msg);
            concat2("::warning::", e.as_str())
        },
        LogLevel::Error => {
            let e = escape_data(msg);
            concat2("::error::", e.as_str())
        },
    }
}

/// Where log messages go.
///
/// Each logger says, through [`Logger::logged`] and [`Logger::failed`], what
/// reporting one message does to it.
pub trait Logger {
    /// `self` is `before` after reporting `msg` at `level`.
    spec fn logged(&self, before: &Self, level: LogLevel, msg: Seq<char>) -> bool;

    /// `self` is `before` after reporting the failure `msg`.
    spec fn failed(&self, before: &Self, msg: Seq<char>) -> bool;

    fn info(&mut self, msg: &str)
        ensures
            final(self).logged(&*old(self), LogLevel::Info, msg@),
    ;

    fn warning(&mut self, msg: &str)
        ensures
            final(self).logged(&*old(self), LogLevel::Warning, msg@),
    ;

    fn error(&mut self, msg: &str)
        ensures
            final(self).logged(&*old(self), LogLevel::Error, msg@),
    ;

    /// Reports that the action failed; the caller sets the exit code.
    fn set_failed(&mut self, msg: &str)
        ensures
            final(self).failed(&*old(self), msg@),
    ;
}

/// `after` is `before` after reporting each of `lines`, in order.
pub open spec fn logged_lines<L: Logger>(after: L, before: L, lines: Seq<(LogLevel, Seq<char>)>) -> bool
    decreases lines.len(),
{
    if lines.len() == 0 {
        after == before
    } else {
        exists|mid: L|
            logged_lines(mid, before, lines.drop_last()) && #[trigger] after.logged(
                &mid,
                lines.last().0,
                lines.last().1,
            )
    }
}

/// Reporting one more line extends what was logged by that line.
pub proof fn lemma_logged_lines_push<L: Logger>(
    after: L,
    mid: L,
    before: L,
    lines: Seq<(LogLevel, Seq<char>)>,
    level: LogLevel,
    msg: Seq<char>,
)
    requires
        logged_lines(mid, before, lines),
        after.logged(&mid, level, msg),
    ensures
        logged_lines(after, before, lines.push((level, msg))),
{
    let l2 = lines.push((level, msg));
    assert(l2.drop_last() =~= lines);
    assert(l2.last() == (level, msg));
    assert(logged_lines(mid, before, l2.drop_last()));
    assert(after.logged(&mid, l2.last().0, l2.last().1));
}

/// Hands `line` to `log` at its level.
pub fn emit<L: Logger + ?Sized>(log: &mut L, line: &LogLine)
    ensures
        final(log).logged(&*old(log), line.level, line.message@),
{
    match line.level {
        LogLevel::Info => log.info(line.message.as_str()),
        LogLevel::Warning => log.warning(line.message.as_str()),
        LogLevel::Error => log.error(line.message.as_str()),
    }
}

/// A destination for whole log lines.
///
/// Each sink says, through [`LineSink::wrote`], what writing one line does
/// to it.
pub trait LineSink {
    /// `self` is `before` after writing `line` and a line break.
    spec fn wrote(&self, before: &Self, line: Seq<char>) -> bool;

    /// Writes `line` followed by a line break.
    fn write_line(&mut self, line: &str)
        ensures
            final(self).wrote(&*old(self), line@),
    ;
}

impl LineSink for Vec<u8> {
    /// The UTF-8 bytes of the line and a `\n` are appended.
    open spec fn wrote(&self, before: &Self, line: Seq<char>) -> bool {
        self@ == before@ + vstd::utf8::encode_utf8(line) + seq![10u8]
    }

    fn write_line(&mut self, line: &str) {
        let bytes = line.as_bytes();
        let ghost start = self@;
        let mut i: usize = 0;
        while i < bytes.len()
            invariant
                bytes@ == vstd::utf8::encode_utf8(line@),
                i <= bytes@.len(),
                self@ == start + bytes@.subrange(0, i as int),
            decreases bytes@.len() - i,
        {
            self.push(bytes[i]);
            i = i + 1;
            assert(self@ =~= start + bytes@.subrange(0, i as int));
        }
        assert(bytes@.subrange(0, i as int) =~= bytes@);
        self.push(10u8);
        assert(self@ =~= old(self)@ + vstd::utf8::encode_utf8(line@) + seq![10u8]);
    }
}

/// The process's standard output as a line sink, with the lines handed to
/// it so far.
pub struct StdoutSink {
    out: std::io::Stdout,
    handed: Ghost<Seq<LineOut>>,
}

impl StdoutSink {
    /// The lines this sink has written to standard output, in order: each
    /// is the line of a [`LineOut`] that the write returned.
    pub closed spec fn lines(&self) -> Seq<Seq<char>> {
        self.handed@.map_values(|w: LineOut| w.line())
    }

    /// A sink on standard output that has been handed nothing yet.
    pub fn new() -> (s: Self)
        ensures
            s.lines() == Seq::<Seq<char>>::empty(),
    {
        let s = StdoutSink { out: stdout_handle(), handed: Ghost(Seq::empty()) };
        assert(s.lines() =~= Seq::<Seq<char>>::empty());
        s
    }
}

impl LineSink for StdoutSink {
    /// The line was written to standard output.
    open spec fn wrote(&self, before: &Self, line: Seq<char>) -> bool {
        self.lines() == before.lines().push(line)
    }

    fn write_line(&mut self, line: &str) {
        let w = stdout_write_line(&mut self.out, line);
        let ghost before = self.handed@;
        self.handed = Ghost(self.handed@.push(w));
        assert(self.handed@.map_values(|x: LineOut| x.line()) =~= before.map_values(
            |x: LineOut| x.line(),
        ).push(line@));
    }
}

/// Logger that writes workflow commands, one per line, to a line sink.
pub struct WriteLogger<W: LineSink> {
    pub sink: W,
}

impl<W: LineSink> WriteLogger<W> {
    /// A logger writing to `sink`.
    pub fn new(sink: W) -> (l: Self)
        ensures
            l.sink == sink,
    {
        WriteLogger { sink }
    }
}

impl<W: LineSink> Logger for WriteLogger<W> {
    /// The sink received the workflow command for the message.
    open spec fn logged(&self, before: &Self, level: LogLevel, msg: Seq<char>) -> bool {
        self.sink.wrote(&before.sink, workflow_command_spec(level, msg))
    }

    /// A failure is reported as an error command.
    open spec fn failed(&self, before: &Self, msg: Seq<char>) -> bool {
        self.logged(before, LogLevel::Error, msg)
    }

    fn info(&mut self, msg: &str) {
        let line = workflow_command(LogLevel::Info, msg);
        self.sink.write_line(line.as_str());
    }

    fn warning(&mut self, msg: &str) {
        let line = workflow_command(LogLevel::Warning, msg);
        self.sink.write_line(line.as_str());
    }

    fn error(&mut self, msg: &str) {
        let line = workflow_command(LogLevel::Error, msg);
        self.sink.write_line(line.as_str());
    }

    fn set_failed(&mut self, msg: &str) {
        self.error(msg);
    }
}

/// Logger that writes workflow commands to the process's standard output.
pub type StdoutLogger = WriteLogger<StdoutSink>;

impl Default for WriteLogger<StdoutSink> {
    /// A logger on standard output that has been handed nothing yet.
    fn default() -> (l: Self)
        ensures
            l.sink.lines() == Seq::<Seq<char>>::empty(),
    {
        WriteLogger::new(StdoutSink::new())
    }
}

/// A [`StdoutLogger`] writes each message to standard output as exactly one
/// line, the workflow command for the message's level, after the lines it
/// wrote before.
pub proof fn law_stdout_logger_writes_the_command(
    before: StdoutLogger,
    after: StdoutLogger,
    level: LogLevel,
    msg: Seq<char>,
)
    requires
        after.logged(&before, level, msg),
    ensures
        after.sink.lines() == before.sink.lines().push(workflow_command_spec(level, msg)),
        after.sink.lines().len() == before.sink.lines().len() + 1,
        after.sink.lines().last() == workflow_command_spec(level, msg),
{
}

/// In-memory logger: keeps every message, prefixed with its level.
#[derive(Debug, Clone, Default)]
pub struct CaptureLogger {
    pub lines: Vec<String>,
}

impl CaptureLogger {
    /// An empty logger.
    pub fn new() -> (l: Self)
        ensures
            l.lines@.len() == 0,
    {
        CaptureLogger { lines: Vec::new() }
    }

    /// Whether some recorded line contains `needle`.
    pub fn contains(&self, needle: &str) -> (r: bool)
        ensures
            r == exists|i: int|
                0 <= i < self.lines@.len() && has_substring(#[trigger] self.lines@[i]@, needle@),
    {
        let mut i: usize = 0;
        while i < self.lines.len()
            invariant
                i <= self.lines@.len(),
                forall|j: int| 0 <= j < i ==> !has_substring(#[trigger] self.lines@[j]@, needle@),
            decreases self.lines@.len() - i,
        {
            if contains_str(self.lines[i].as_str(), needle) {
                return true;
            }
            i = i + 1;
        }
        false
    }

    fn record(&mut self, prefix: &str, msg: &str)
        ensures
            final(self).lines.deep_view() == old(self).lines.deep_view().push(prefix@ + msg@),
    {
        let line = concat2(prefix, msg);
        self.lines.push(line);
        assert(self.lines.deep_view() =~= old(self).lines.deep_view().push(prefix@ + msg@));
    }
}

/// The prefix that marks each level in a [`CaptureLogger`].
pub open spec fn capture_prefix(level: LogLevel) -> Seq<char> {
    match level {
        LogLevel::Info => "info: "@,
        LogLevel::Warning => "warning: "@,
        LogLevel::Error => "error: "@,
    }
}

impl Logger for CaptureLogger {
    /// One more line: the level's prefix and the message.
    open spec fn logged(&self, before: &Self, level: LogLevel, msg: Seq<char>) -> bool {
        self.lines.deep_view() == before.lines.deep_view().push(capture_prefix(level) + msg)
    }

    /// One more line: `failed: ` and the message.
    open spec fn failed(&self, before: &Self, msg: Seq<char>) -> bool {
        self.lines.deep_view() == before.lines.deep_view().push("failed: "@ + msg)
    }

    fn info(&mut self, msg: &str)
        ensures
            final(self).lines.deep_view() == old(self).lines.deep_view().push("info: "@ + msg@),
    {
        self.record("info: ", msg);
    }

    fn warning(&mut self, msg: &str)
        ensures
            final(self).lines.deep_view() == old(self).lines.deep_view().push("warning: "@ + msg@),
    {
        self.record("warning: ", msg);
    }

    fn error(&mut self, msg: &str)
        ensures
            final(self).lines.deep_view() == old(self).lines.deep_view().push("error: "@ + msg@),
    {
        self.record("error: ", msg);
    }

    fn set_failed(&mut self, msg: &str)
        ensures
            final(self).lines.deep_view() == old(self).lines.deep_view().push("failed: "@ + msg@),
    {
        self.record("failed: ", msg);
    }
}

} // verus!
