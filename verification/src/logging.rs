//! The iOS logger's formatting and policy: level colors and tags, the
//! timestamp and line format, the level filter read from the build
//! environment and which records it lets through, and how a line reaches the
//! log relay: the order of writes and reconnections, and the cooldown between
//! reconnections.

use vstd::prelude::*;
use crate::text::{decimal, padded_decimal_string, str_eq, zero_pad};

verus! {

/// Severity of a log record.
#[derive(Clone, Copy, Debug, PartialEq, Eq, Structural)]
pub enum LogLevel {
    Error,
    Warn,
    Info,
    Debug,
    Trace,
}

/// The ANSI color escape of a level.
pub open spec fn level_color_text(level: LogLevel) -> Seq<char> {
    match level {
        LogLevel::Error => "\x1b[31m"@,
        LogLevel::Warn => "\x1b[33m"@,
        LogLevel::Info => "\x1b[32m"@,
        LogLevel::Debug => "\x1b[36m"@,
        LogLevel::Trace => "\x1b[90m"@,
    }
}

/// The five-character tag of a level.
pub open spec fn level_tag_text(level: LogLevel) -> Seq<char> {
    match level {
        LogLevel::Error => "ERROR"@,
        LogLevel::Warn => "WARN "@,
        LogLevel::Info => "INFO "@,
        LogLevel::Debug => "DEBUG"@,
        LogLevel::Trace => "TRACE"@,
    }
}

/// The ANSI color escape of a level: red, yellow, green, cyan, gray.
pub fn level_color(level: LogLevel) -> (s: &'static str)
    ensures
        s@ == level_color_text(level),
{
    match level {
        LogLevel::Error => "\x1b[31m",
        LogLevel::Warn => "\x1b[33m",
        LogLevel::Info => "\x1b[32m",
        LogLevel::Debug => "\x1b[36m",
        LogLevel::Trace => "\x1b[90m",
    }
}

/// The five-character tag of a level.
pub fn level_tag(level: LogLevel) -> (s: &'static str)
    ensures
        s@ == level_tag_text(level),
{
    match level {
        LogLevel::Error => "ERROR",
        LogLevel::Warn => "WARN ",
        LogLevel::Info => "INFO ",
        LogLevel::Debug => "DEBUG",
        LogLevel::Trace => "TRACE",
    }
}

/// `HH:MM:SS.mmm` of the time of day, in UTC, `total_secs` seconds and
/// `millis` milliseconds after the Unix epoch.
pub open spec fn timestamp_text(total_secs: nat, millis: nat) -> Seq<char> {
    zero_pad(decimal((total_secs / 3600) % 24), 2) + seq![':'] + zero_pad(
        decimal((total_secs / 60) % 60),
        2,
    ) + seq![':'] + zero_pad(decimal(total_secs % 60), 2) + seq!['.'] + zero_pad(decimal(millis), 3)
}

/// Formats the time of day as `HH:MM:SS.mmm`, as the logger prefixes each line.
pub fn format_timestamp(total_secs: u64, millis: u32) -> (s: String)
    ensures
        s@ == timestamp_text(total_secs as nat, millis as nat),
{
    let hours = (total_secs / 3600) % 24;
    let minutes = (total_secs / 60) % 60;
    let seconds = total_secs % 60;
    let mut s = padded_decimal_string(hours, 2);
    proof {
        reveal_strlit(":");
        reveal_strlit(".");
    }
    s.append(":");
    let m = padded_decimal_string(minutes, 2);
    s.append(m.as_str());
    s.append(":");
    let sec = padded_decimal_string(seconds, 2);
    s.append(sec.as_str());
    s.append(".");
    let ms = padded_decimal_string(millis as u64, 3);
    s.append(ms.as_str());
    assert(s@ =~= timestamp_text(total_secs as nat, millis as nat));
    s
}

/// One log line: timestamp, colored level tag, target in brackets, message.
pub open spec fn log_line_text(
    timestamp: Seq<char>,
    level: LogLevel,
    target: Seq<char>,
    message: Seq<char>,
) -> Seq<char> {
    timestamp + " "@ + level_color_text(level) + level_tag_text(level) + "\x1b[0m"@ + " ["@ + target
        + "] "@ + message
}

/// Formats one log line as the logger writes it to standard error.
pub fn format_log_line(timestamp: &str, level: LogLevel, target: &str, message: &str) -> (s: String)
    ensures
        s@ == log_line_text(timestamp@, level, target@, message@),
{
    let mut s = String::from_str(timestamp);
    s.append(" ");
    s.append(level_color(level));
    s.append(level_tag(level));
    s.append("\x1b[0m");
    s.append(" [");
    s.append(target);
    s.append("] ");
    s.append(message);
    assert(s@ =~= log_line_text(timestamp@, level, target@, message@));
    s
}

/// Formats one log line as the logger sends it to the relay: the same line,
/// ended by a newline.
pub fn format_relay_line(timestamp: &str, level: LogLevel, target: &str, message: &str) -> (s:
    String)
    ensures
        s@ == log_line_text(timestamp@, level, target@, message@) + "\n"@,
{
    let mut s = format_log_line(timestamp, level, target, message);
    s.append("\n");
    s
}

/// The most verbose level that is logged.
#[derive(Clone, Copy, Debug, PartialEq, Eq, Structural)]
pub enum LogLevelFilter {
    Off,
    Error,
    Warn,
    Info,
    Debug,
    Trace,
}

/// The filter named by a configuration value, in lower or upper case; debug
/// for anything else.
pub open spec fn level_filter_named(value: Option<Seq<char>>) -> LogLevelFilter {
    match value {
        Some(v) => if v == "trace"@ || v == "TRACE"@ {
            LogLevelFilter::Trace
        } else if v == "debug"@ || v == "DEBUG"@ {
            LogLevelFilter::Debug
        } else if v == "info"@ || v == "INFO"@ {
            LogLevelFilter::Info
        } else if v == "warn"@ || v == "WARN"@ {
            LogLevelFilter::Warn
        } else if v == "error"@ || v == "ERROR"@ {
            LogLevelFilter::Error
        } else {
            LogLevelFilter::Debug
        },
        None => LogLevelFilter::Debug,
    }
}

/// The level filter configured at build time (`GPUI_LOG_LEVEL`), debug by default.
pub fn parse_log_level_filter(value: Option<&str>) -> (f: LogLevelFilter)
    ensures
        f == level_filter_named(
            match value {
                Some(v) => Some(v@),
                None => None,
            },
        ),
{
    match value {
        Some(v) => {
            if str_eq(v, "trace") || str_eq(v, "TRACE") {
                LogLevelFilter::Trace
            } else if str_eq(v, "debug") || str_eq(v, "DEBUG") {
                LogLevelFilter::Debug
            } else if str_eq(v, "info") || str_eq(v, "INFO") {
                LogLevelFilter::Info
            } else if str_eq(v, "warn") || str_eq(v, "WARN") {
                LogLevelFilter::Warn
            } else if str_eq(v, "error") || str_eq(v, "ERROR") {
                LogLevelFilter::Error
            } else {
                LogLevelFilter::Debug
            }
        },
        None => LogLevelFilter::Debug,
    }
}

/// Milliseconds to wait between attempts to reconnect to the log relay.
pub const TCP_RECONNECT_COOLDOWN_MS: u64 = 5000;

/// `now - last`, or 0 when the clock went backwards.
pub open spec fn elapsed_ms(now: u64, last: u64) -> nat {
    if now >= last { (now - last) as nat } else { 0 }
}

/// Decides whether to attempt a reconnection to the relay now: only once the
/// cooldown has passed since the last attempt, which is then recorded as now.
pub fn begin_reconnect_attempt(last_attempt_ms: &mut u64, now_ms: u64) -> (attempt: bool)
    ensures
        attempt == (elapsed_ms(now_ms, *old(last_attempt_ms)) >= TCP_RECONNECT_COOLDOWN_MS),
        *final(last_attempt_ms) == if attempt { now_ms } else { *old(last_attempt_ms) },
{
    let elapsed = now_ms.saturating_sub(*last_attempt_ms);
    if elapsed < TCP_RECONNECT_COOLDOWN_MS {
        return false;
    }
    *last_attempt_ms = now_ms;
    true
}

/// Once an attempt is granted at `t1` (and recorded), every request before
/// `t1 + TCP_RECONNECT_COOLDOWN_MS` is refused; a request at or after it is granted.
pub proof fn lemma_reconnect_cooldown(t1: u64, t2: u64)
    requires
        t1 <= t2,
    ensures
        (elapsed_ms(t2, t1) >= TCP_RECONNECT_COOLDOWN_MS) <==> (t2 >= t1 + TCP_RECONNECT_COOLDOWN_MS),
{
}

/// The rank of a level, most severe first, as the `log` crate orders them.
pub open spec fn level_rank(level: LogLevel) -> int {
    match level {
        LogLevel::Error => 1,
        LogLevel::Warn => 2,
        LogLevel::Info => 3,
        LogLevel::Debug => 4,
        LogLevel::Trace => 5,
    }
}

/// The rank of a filter: the rank of its most verbose level, zero when off.
pub open spec fn filter_rank(filter: LogLevelFilter) -> int {
    match filter {
        LogLevelFilter::Off => 0,
        LogLevelFilter::Error => 1,
        LogLevelFilter::Warn => 2,
        LogLevelFilter::Info => 3,
        LogLevelFilter::Debug => 4,
        LogLevelFilter::Trace => 5,
    }
}

/// Whether a record of `level` is logged under the filter `max`: when the
/// level is no more verbose than the filter.
pub fn level_enabled(level: LogLevel, max: LogLevelFilter) -> (r: bool)
    ensures
        r == (level_rank(level) <= filter_rank(max)),
{
    let rank: u8 = match level {
        LogLevel::Error => 1,
        LogLevel::Warn => 2,
        LogLevel::Info => 3,
        LogLevel::Debug => 4,
        LogLevel::Trace => 5,
    };
    let limit: u8 = match max {
        LogLevelFilter::Off => 0,
        LogLevelFilter::Error => 1,
        LogLevelFilter::Warn => 2,
        LogLevelFilter::Info => 3,
        LogLevelFilter::Debug => 4,
        LogLevelFilter::Trace => 5,
    };
    rank <= limit
}

/// Nothing is logged when the filter is off, everything at trace, and a record
/// logged under one filter is logged under every more verbose one.
pub proof fn lemma_level_filter_order(level: LogLevel, f1: LogLevelFilter, f2: LogLevelFilter)
    ensures
        !(level_rank(level) <= filter_rank(LogLevelFilter::Off)),
        level_rank(level) <= filter_rank(LogLevelFilter::Trace),
        filter_rank(f1) <= filter_rank(f2) && level_rank(level) <= filter_rank(f1) ==> level_rank(level)
            <= filter_rank(f2),
{
}

/// Where the sending of one line to the relay stands.
#[derive(Clone, Copy, Debug, PartialEq, Eq, Structural)]
pub enum RelayPhase {
    /// No line is being sent.
    Idle,
    /// The line is being written to the open stream.
    Writing,
    /// The write failed and the stream was dropped; a reconnection is tried.
    ReconnectingAfterFailure,
    /// There was no stream; a reconnection is tried before writing.
    ReconnectingToSend,
    /// The line is being written to the stream just opened.
    Retrying,
}

/// What the relay glue reports back.
#[derive(Clone, Copy, Debug, PartialEq, Eq, Structural)]
pub enum RelayEvent {
    /// A line is ready to be sent.
    LineReady,
    /// The write succeeded.
    Wrote,
    /// The write failed.
    WriteFailed,
    /// The reconnection attempt is over (it may have been refused by the
    /// cooldown); whether a stream is now open.
    Reconnected(bool),
}

/// What the relay glue does next.
#[derive(Clone, Copy, Debug, PartialEq, Eq, Structural)]
pub enum RelayAction {
    /// Write the line to the open stream.
    Write,
    /// Drop the stream.
    DropStream,
    /// Try to reconnect, if the cooldown allows it.
    Reconnect,
    /// Nothing more for this line.
    Done,
}

/// The relay's state: whether a stream is open, and where the current line stands.
#[derive(Clone, Copy, Debug, PartialEq, Eq, Structural)]
pub struct RelayState {
    pub connected: bool,
    pub phase: RelayPhase,
}

/// The next state and actions for an event. A line goes to an open stream; if
/// that write fails the stream is dropped and one reconnection is tried, but
/// the line is not sent again. Without a stream, one reconnection is tried and
/// the line is written if it succeeded; the outcome of that write is not
/// checked. Events that do not fit the phase change nothing.
pub open spec fn relay_next_spec(state: RelayState, event: RelayEvent) -> (RelayState, Seq<RelayAction>) {
    match (state.phase, event) {
        (RelayPhase::Idle, RelayEvent::LineReady) => if state.connected {
            (RelayState { phase: RelayPhase::Writing, ..state }, seq![RelayAction::Write])
        } else {
            (RelayState { phase: RelayPhase::ReconnectingToSend, ..state }, seq![RelayAction::Reconnect])
        },
        (RelayPhase::Writing, RelayEvent::Wrote) => (
            RelayState { phase: RelayPhase::Idle, ..state },
            seq![RelayAction::Done],
        ),
        (RelayPhase::Writing, RelayEvent::WriteFailed) => (
            RelayState { connected: false, phase: RelayPhase::ReconnectingAfterFailure },
            seq![RelayAction::DropStream, RelayAction::Reconnect],
        ),
        (RelayPhase::ReconnectingAfterFailure, RelayEvent::Reconnected(c)) => (
            RelayState { connected: c, phase: RelayPhase::Idle },
            seq![RelayAction::Done],
        ),
        (RelayPhase::ReconnectingToSend, RelayEvent::Reconnected(c)) => if c {
            (RelayState { connected: true, phase: RelayPhase::Retrying }, seq![RelayAction::Write])
        } else {
            (RelayState { connected: false, phase: RelayPhase::Idle }, seq![RelayAction::Done])
        },
        (RelayPhase::Retrying, RelayEvent::Wrote) => (
            RelayState { phase: RelayPhase::Idle, ..state },
            seq![RelayAction::Done],
        ),
        (RelayPhase::Retrying, RelayEvent::WriteFailed) => (
            RelayState { phase: RelayPhase::Idle, ..state },
            seq![RelayAction::Done],
        ),
        _ => (state, Seq::empty()),
    }
}

/// Advances the relay by one event: the next state and the actions to perform
/// in order.
pub fn relay_next(state: RelayState, event: RelayEvent) -> (r: (RelayState, Vec<RelayAction>))
    ensures
        (r.0, r.1@) == relay_next_spec(state, event),
{
    let (next, actions): (RelayState, Vec<RelayAction>) = match (state.phase, event) {
        (RelayPhase::Idle, RelayEvent::LineReady) => if state.connected {
            (RelayState { phase: RelayPhase::Writing, ..state }, vec![RelayAction::Write])
        } else {
            (RelayState { phase: RelayPhase::ReconnectingToSend, ..state }, vec![RelayAction::Reconnect])
        },
        (RelayPhase::Writing, RelayEvent::Wrote) => (
            RelayState { phase: RelayPhase::Idle, ..state },
            vec![RelayAction::Done],
        ),
        (RelayPhase::Writing, RelayEvent::WriteFailed) => (
            RelayState { connected: false, phase: RelayPhase::ReconnectingAfterFailure },
            vec![RelayAction::DropStream, RelayAction::Reconnect],
        ),
        (RelayPhase::ReconnectingAfterFailure, RelayEvent::Reconnected(c)) => (
            RelayState { connected: c, phase: RelayPhase::Idle },
            vec![RelayAction::Done],
        ),
        (RelayPhase::ReconnectingToSend, RelayEvent::Reconnected(c)) => if c {
            (RelayState { connected: true, phase: RelayPhase::Retrying }, vec![RelayAction::Write])
        } else {
            (RelayState { connected: false, phase: RelayPhase::Idle }, vec![RelayAction::Done])
        },
        (RelayPhase::Retrying, RelayEvent::Wrote) => (
            RelayState { phase: RelayPhase::Idle, ..state },
            vec![RelayAction::Done],
        ),
        (RelayPhase::Retrying, RelayEvent::WriteFailed) => (
            RelayState { phase: RelayPhase::Idle, ..state },
            vec![RelayAction::Done],
        ),
        _ => (state, Vec::new()),
    };
    proof {
        assert(actions@ =~= relay_next_spec(state, event).1);
    }
    (next, actions)
}

/// A line is written at most once to a stream that was open when it arrived:
/// after that write, whatever is reported, the relay asks for no other write
/// of the same line, and a failed write drops the stream. A write to a stream
/// just reopened is never repeated either.
pub proof fn lemma_relay_writes_bounded(connected: bool, e1: RelayEvent, e2: RelayEvent)
    ensures
        ({
            let (s1, a1) = relay_next_spec(RelayState { connected, phase: RelayPhase::Writing }, e1);
            let (s2, a2) = relay_next_spec(s1, e2);
            &&& !a1.contains(RelayAction::Write)
            &&& s1.phase != RelayPhase::Idle ==> !a2.contains(RelayAction::Write)
            &&& e1 == RelayEvent::WriteFailed ==> !s1.connected && a1[0] == RelayAction::DropStream
        }),
        ({
            let (s1, a1) = relay_next_spec(RelayState { connected, phase: RelayPhase::Retrying }, e1);
            &&& !a1.contains(RelayAction::Write)
            &&& s1.phase == (if e1 == RelayEvent::Wrote || e1 == RelayEvent::WriteFailed {
                RelayPhase::Idle
            } else {
                RelayPhase::Retrying
            })
        }),
{
    let (s1, a1) = relay_next_spec(RelayState { connected, phase: RelayPhase::Writing }, e1);
    assert(!a1.contains(RelayAction::Write)) by {
        if a1.contains(RelayAction::Write) {
            let k = choose|k: int| 0 <= k < a1.len() && a1[k] == RelayAction::Write;
            assert(a1[k] == RelayAction::Write);
        }
    }
    let (s2, a2) = relay_next_spec(s1, e2);
    assert(s1.phase != RelayPhase::Idle ==> !a2.contains(RelayAction::Write)) by {
        if s1.phase != RelayPhase::Idle && a2.contains(RelayAction::Write) {
            let k = choose|k: int| 0 <= k < a2.len() && a2[k] == RelayAction::Write;
            assert(a2[k] == RelayAction::Write);
        }
    }
    let (t1, b1) = relay_next_spec(RelayState { connected, phase: RelayPhase::Retrying }, e1);
    assert(!b1.contains(RelayAction::Write)) by {
        if b1.contains(RelayAction::Write) {
            let k = choose|k: int| 0 <= k < b1.len() && b1[k] == RelayAction::Write;
            assert(b1[k] == RelayAction::Write);
        }
    }
}

/// A write that succeeded never drops the stream: in every state the relay
/// keeps whether a stream is open and asks for no drop. After a reconnection
/// attempt, whether a stream is open is what the attempt reported.
pub proof fn lemma_relay_success_keeps_stream(state: RelayState, c: bool)
    ensures
        !relay_next_spec(state, RelayEvent::Wrote).1.contains(RelayAction::DropStream),
        relay_next_spec(state, RelayEvent::Wrote).0.connected == state.connected,
        (state.phase == RelayPhase::ReconnectingAfterFailure || state.phase
            == RelayPhase::ReconnectingToSend) ==> relay_next_spec(
            state,
            RelayEvent::Reconnected(c),
        ).0.connected == c,
{
    let a = relay_next_spec(state, RelayEvent::Wrote).1;
    if a.contains(RelayAction::DropStream) {
        let k = choose|k: int| 0 <= k < a.len() && a[k] == RelayAction::DropStream;
        assert(a[k] == RelayAction::DropStream);
    }
}

/// Each level name, in lower or upper case, selects the filter of that level;
/// no value, or any other value, selects debug.
pub proof fn lemma_level_names_select_their_filter(other: Seq<char>)
    requires
        other != "trace"@ && other != "TRACE"@ && other != "debug"@ && other != "DEBUG"@ && other
            != "info"@ && other != "INFO"@ && other != "warn"@ && other != "WARN"@ && other
            != "error"@ && other != "ERROR"@,
    ensures
        level_filter_named(Some("trace"@)) == LogLevelFilter::Trace,
        level_filter_named(Some("TRACE"@)) == LogLevelFilter::Trace,
        level_filter_named(Some("debug"@)) == LogLevelFilter::Debug,
        level_filter_named(Some("DEBUG"@)) == LogLevelFilter::Debug,
        level_filter_named(Some("info"@)) == LogLevelFilter::Info,
        level_filter_named(Some("INFO"@)) == LogLevelFilter::Info,
        level_filter_named(Some("warn"@)) == LogLevelFilter::Warn,
        level_filter_named(Some("WARN"@)) == LogLevelFilter::Warn,
        level_filter_named(Some("error"@)) == LogLevelFilter::Error,
        level_filter_named(Some("ERROR"@)) == LogLevelFilter::Error,
        level_filter_named(Some(other)) == LogLevelFilter::Debug,
        level_filter_named(None) == LogLevelFilter::Debug,
{
    reveal_strlit("trace");
    reveal_strlit("TRACE");
    reveal_strlit("debug");
    reveal_strlit("DEBUG");
    reveal_strlit("info");
    reveal_strlit("INFO");
    reveal_strlit("warn");
    reveal_strlit("WARN");
    reveal_strlit("error");
    reveal_strlit("ERROR");
    assert("debug"@[0] != "trace"@[0] && "debug"@[0] != "TRACE"@[0]);
    assert("DEBUG"@[0] != "trace"@[0] && "DEBUG"@[0] != "TRACE"@[0]);
    assert("error"@[0] != "trace"@[0] && "error"@[0] != "TRACE"@[0]);
    assert("error"@[0] != "debug"@[0] && "error"@[0] != "DEBUG"@[0]);
    assert("ERROR"@[0] != "trace"@[0] && "ERROR"@[0] != "TRACE"@[0]);
    assert("ERROR"@[0] != "debug"@[0] && "ERROR"@[0] != "DEBUG"@[0]);
    assert("warn"@[0] != "info"@[0] && "warn"@[0] != "INFO"@[0]);
    assert("WARN"@[0] != "info"@[0] && "WARN"@[0] != "INFO"@[0]);
}

} // verus!
