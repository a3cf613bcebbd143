//! Query logging: the settings, the level a finished query is logged at,
//! and the summary and formatted SQL of the log event.

use vstd::prelude::*;
use std::time::{Duration, Instant};
use crate::text::{chars_of, push_char, push_str_verified, string_from_chars};

verus! {

/// The current instant of `std::time`.
#[verifier::external_type_specification]
#[verifier::external_body]
pub struct ExInstant(Instant);

/// The length of a duration in nanoseconds (`Duration::as_nanos`).
pub uninterp spec fn duration_nanos(d: Duration) -> nat;

/// `Duration::from_secs`: a duration of `secs` whole seconds.
#[verifier::external_body]
fn duration_from_secs(secs: u64) -> (r: Duration)
    ensures
        duration_nanos(r) == secs * 1_000_000_000,
{
    Duration::from_secs(secs)
}

/// `Duration`'s `>=`: durations are ordered by their length.
#[verifier::external_body]
fn duration_at_least(a: &Duration, b: &Duration) -> (r: bool)
    ensures
        r == (duration_nanos(*a) >= duration_nanos(*b)),
{
    *a >= *b
}

/// `Instant::now`: the current time; nothing is promised of it.
#[verifier::external_body]
fn instant_now() -> Instant {
    Instant::now()
}

/// `Instant::elapsed`: the time since `start`; nothing is promised of it.
#[verifier::external_body]
fn instant_elapsed(start: &Instant) -> Duration {
    start.elapsed()
}

/// The formatted form of SQL text that `sqlformat` produces with default
/// options and no parameters.
pub uninterp spec fn sqlformat_format(sql: Seq<char>) -> Seq<char>;

/// `sqlformat::format` with no query parameters and the default options.
#[verifier::external_body]
fn format_sql(sql: &str) -> (r: String)
    ensures
        r@ == sqlformat_format(sql@),
{
    sqlformat::format(sql, &sqlformat::QueryParams::None, &sqlformat::FormatOptions::default())
}

/// A logging threshold, as the `log` crate's `LevelFilter` has it.
#[derive(Debug, Clone, Copy, PartialEq, Eq, Structural)]
pub enum LevelFilter {
    /// Nothing is logged.
    Off,
    /// Errors only.
    Error,
    /// Warnings and above.
    Warn,
    /// Information and above.
    Info,
    /// Debugging and above.
    Debug,
    /// Everything.
    Trace,
}

/// The level of one log event, as the `log` and `tracing` crates have it.
#[derive(Debug, Clone, Copy, PartialEq, Eq, Structural)]
pub enum Level {
    /// An error.
    Error,
    /// A warning.
    Warn,
    /// Information.
    Info,
    /// Debugging information.
    Debug,
    /// Fine-grained tracing.
    Trace,
}

/// The level a filter admits at most, or none for `Off`.
pub open spec fn filter_level(f: LevelFilter) -> Option<Level> {
    match f {
        LevelFilter::Off => None,
        LevelFilter::Error => Some(Level::Error),
        LevelFilter::Warn => Some(Level::Warn),
        LevelFilter::Info => Some(Level::Info),
        LevelFilter::Debug => Some(Level::Debug),
        LevelFilter::Trace => Some(Level::Trace),
    }
}

/// Logging configuration for queries.
#[derive(Debug, Clone, Copy)]
pub struct LogSettings {
    /// Log level for statements.
    pub statements_level: LevelFilter,
    /// Log level for slow statements.
    pub slow_statements_level: LevelFilter,
    /// Threshold for slow statements.
    pub slow_statements_duration: Duration,
}

impl Default for LogSettings {
    fn default() -> (r: LogSettings)
        ensures
            r.statements_level == LevelFilter::Debug,
            r.slow_statements_level == LevelFilter::Warn,
            duration_nanos(r.slow_statements_duration) == 1_000_000_000,
    {
        LogSettings {
            statements_level: LevelFilter::Debug,
            slow_statements_level: LevelFilter::Warn,
            slow_statements_duration: duration_from_secs(1),
        }
    }
}

impl LogSettings {
    /// Configure statement logging level.
    pub fn log_statements(&mut self, level: LevelFilter)
        ensures
            final(self).statements_level == level,
            final(self).slow_statements_level == old(self).slow_statements_level,
            final(self).slow_statements_duration == old(self).slow_statements_duration,
    {
        self.statements_level = level;
    }

    /// Configure slow statement logging level and threshold.
    pub fn log_slow_statements(&mut self, level: LevelFilter, duration: Duration)
        ensures
            final(self).statements_level == old(self).statements_level,
            final(self).slow_statements_level == level,
            final(self).slow_statements_duration == duration,
    {
        self.slow_statements_level = level;
        self.slow_statements_duration = duration;
    }

    /// Returns `true` if any logging level is enabled.
    pub fn is_enabled(&self) -> (r: bool)
        ensures
            r == (self.statements_level != LevelFilter::Off || self.slow_statements_level
                != LevelFilter::Off),
    {
        !(self.statements_level == LevelFilter::Off) || !(self.slow_statements_level
            == LevelFilter::Off)
    }
}

/// The tracing level and the log level of a filter's most verbose level;
/// none for `Off`.
pub fn private_level_filter_to_levels(filter: LevelFilter) -> (r: Option<(Level, Level)>)
    ensures
        r == match filter_level(filter) {
            Some(l) => Some((l, l)),
            None => None,
        },
{
    match filter {
        LevelFilter::Error => Some((Level::Error, Level::Error)),
        LevelFilter::Warn => Some((Level::Warn, Level::Warn)),
        LevelFilter::Info => Some((Level::Info, Level::Info)),
        LevelFilter::Debug => Some((Level::Debug, Level::Debug)),
        LevelFilter::Trace => Some((Level::Trace, Level::Trace)),
        LevelFilter::Off => None,
    }
}

/// A character with the Unicode `White_Space` property
/// (what `char::is_whitespace` tests).
pub open spec fn is_unicode_whitespace(c: char) -> bool {
    ||| '\u{9}' <= c <= '\u{d}'
    ||| c == ' '
    ||| c == '\u{85}'
    ||| c == '\u{a0}'
    ||| c == '\u{1680}'
    ||| '\u{2000}' <= c <= '\u{200a}'
    ||| c == '\u{2028}'
    ||| c == '\u{2029}'
    ||| c == '\u{202f}'
    ||| c == '\u{205f}'
    ||| c == '\u{3000}'
}

/// Does `c` have the Unicode `White_Space` property?
pub fn is_whitespace(c: char) -> (r: bool)
    ensures
        r == is_unicode_whitespace(c),
{
    ('\u{9}' <= c && c <= '\u{d}') || c == ' ' || c == '\u{85}' || c == '\u{a0}' || c
        == '\u{1680}' || ('\u{2000}' <= c && c <= '\u{200a}') || c == '\u{2028}' || c
        == '\u{2029}' || c == '\u{202f}' || c == '\u{205f}' || c == '\u{3000}'
}

/// The maximal runs of non-whitespace characters of `s`, in order
/// (what `str::split_whitespace` yields).
pub open spec fn words(s: Seq<char>) -> Seq<Seq<char>>
    decreases s.len(),
{
    if s.len() == 0 {
        seq![]
    } else {
        let w = words(s.drop_last());
        let c = s.last();
        if is_unicode_whitespace(c) {
            w
        } else if s.len() >= 2 && !is_unicode_whitespace(s[s.len() - 2]) && w.len() > 0 {
            w.drop_last().push(w.last().push(c))
        } else {
            w.push(seq![c])
        }
    }
}

/// The texts `parts` joined with single spaces.
pub open spec fn join_spaced(parts: Seq<Seq<char>>) -> Seq<char>
    decreases parts.len(),
{
    if parts.len() == 0 {
        seq![]
    } else if parts.len() == 1 {
        parts[0]
    } else {
        join_spaced(parts.drop_last()) + seq![' '] + parts.last()
    }
}

/// The short summary of SQL text: its first four words, separated by single
/// spaces.
pub open spec fn query_summary(sql: Seq<char>) -> Seq<char> {
    if words(sql).len() <= 4 {
        join_spaced(words(sql))
    } else {
        join_spaced(words(sql).take(4))
    }
}

/// Produce a short summary of a SQL statement for logging: its first four
/// whitespace-separated words, joined by single spaces.
pub fn parse_query_summary(sql: &str) -> (r: String)
    ensures
        r@ == query_summary(sql@),
{
    let chars = chars_of(sql);
    let mut ws: Vec<Vec<char>> = Vec::new();
    let mut k: usize = 0;
    while k < chars.len()
        invariant
            k <= chars@.len(),
            ws@.map_values(|w: Vec<char>| w@) == words(chars@.take(k as int)),
        decreases chars@.len() - k,
    {
        let c = chars[k];
        let ghost prev = chars@.take(k as int);
        assert(chars@.take(k + 1).drop_last() =~= prev);
        assert(chars@.take(k + 1).last() == c);
        if !is_whitespace(c) {
            if k > 0 && !is_whitespace(chars[k - 1]) && ws.len() > 0 {
                let mut w = ws.pop().unwrap();
                w.push(c);
                ws.push(w);
            } else {
                let mut w: Vec<char> = Vec::new();
                w.push(c);
                ws.push(w);
            }
            proof {
                assert(k > 0 ==> chars@.take(k + 1)[k - 1] == chars@[k - 1]);
            }
        }
        k = k + 1;
        assert(ws@.map_values(|w: Vec<char>| w@) =~= words(chars@.take(k as int)));
    }
    assert(chars@.take(chars@.len() as int) =~= chars@);
    let ghost all = ws@.map_values(|w: Vec<char>| w@);
    let mut out = String::new();
    let mut j: usize = 0;
    while j < ws.len() && j < 4
        invariant
            j <= ws@.len(),
            j <= 4,
            all == ws@.map_values(|w: Vec<char>| w@),
            out@ == join_spaced(all.take(j as int)),
        decreases 4 - j,
    {
        if j > 0 {
            push_char(&mut out, ' ');
        }
        crate::text::push_all(&mut out, &ws[j]);
        proof {
            assert(all.take(j + 1).drop_last() =~= all.take(j as int));
        }
        j = j + 1;
    }
    if ws.len() <= 4 {
        assert(all.take(j as int) =~= all);
    }
    out
}

/// The summary line and the formatted SQL logged for `sql`: when the
/// summary is the whole text, that text and nothing more; otherwise the
/// summary followed by ` …` and the formatted SQL between blank lines.
pub open spec fn log_payload(sql: Seq<char>) -> (Seq<char>, Seq<char>) {
    if query_summary(sql) != sql {
        (query_summary(sql) + " …"@, "\n\n"@ + sqlformat_format(sql) + "\n"@)
    } else {
        (query_summary(sql), seq![])
    }
}

/// What is logged when a query finishes.
#[derive(Debug)]
pub struct QueryLogEvent {
    /// The tracing level of the event.
    pub tracing_level: Level,
    /// The log level of the event.
    pub log_level: Level,
    /// Count of rows affected.
    pub rows_affected: u64,
    /// Count of rows returned.
    pub rows_returned: u64,
    /// Time the query took.
    pub elapsed: Duration,
}

/// Logger that tracks query execution statistics.
#[derive(Debug)]
pub struct QueryLogger<'q> {
    /// SQL being executed.
    pub sql: &'q str,
    /// Count of rows returned.
    pub rows_returned: u64,
    /// Count of rows affected.
    pub rows_affected: u64,
    /// Start time for the query.
    pub start: Instant,
    /// Logging settings in effect.
    pub settings: LogSettings,
}

/// Types that can log query execution statistics.
pub trait QueryLog {
    /// Whether this logger counts rows.
    spec fn counts(&self) -> bool;

    /// Rows returned so far.
    spec fn returned(&self) -> nat;

    /// Rows affected so far.
    spec fn affected(&self) -> nat;

    /// Increment the rows-returned counter.
    fn inc_rows_returned(&mut self)
        requires
            old(self).counts() ==> old(self).returned() < u64::MAX,
        ensures
            final(self).counts() == old(self).counts(),
            final(self).affected() == old(self).affected(),
            final(self).returned() == if old(self).counts() {
                old(self).returned() + 1
            } else {
                old(self).returned()
            },
    ;

    /// Increment the rows-affected counter by `n`.
    fn inc_rows_affected(&mut self, n: u64)
        requires
            old(self).counts() ==> old(self).affected() + n <= u64::MAX,
        ensures
            final(self).counts() == old(self).counts(),
            final(self).returned() == old(self).returned(),
            final(self).affected() == if old(self).counts() {
                old(self).affected() + n
            } else {
                old(self).affected() as int
            },
    ;
}

/// `r` is the event to log for the query `q` when it took `elapsed`: none
/// when the level chosen by the slow-statement threshold is off, else an
/// event at that level with `q`'s row counts and the elapsed time.
pub open spec fn finished_event<'q>(q: QueryLogger<'q>, elapsed: Duration, r: Option<QueryLogEvent>) -> bool {
    match filter_level(
        if duration_nanos(elapsed) >= duration_nanos(q.settings.slow_statements_duration) {
            q.settings.slow_statements_level
        } else {
            q.settings.statements_level
        },
    ) {
        None => r is None,
        Some(l) => r matches Some(ev) && ev.tracing_level == l && ev.log_level == l
            && ev.rows_affected == q.rows_affected && ev.rows_returned == q.rows_returned
            && ev.elapsed == elapsed,
    }
}

impl<'q> QueryLogger<'q> {
    /// Create a new query logger, started now.
    pub fn new(sql: &'q str, settings: LogSettings) -> (r: QueryLogger<'q>)
        ensures
            r.sql == sql,
            r.rows_returned == 0,
            r.rows_affected == 0,
            r.settings.statements_level == settings.statements_level,
            r.settings.slow_statements_level == settings.slow_statements_level,
            r.settings.slow_statements_duration == settings.slow_statements_duration,
    {
        QueryLogger { sql, rows_returned: 0, rows_affected: 0, start: instant_now(), settings }
    }

    /// The logging level for a query that took `elapsed`: the slow-statement
    /// level from the threshold on, else the statement level.
    pub fn level_for_elapsed(&self, elapsed: &Duration) -> (r: LevelFilter)
        ensures
            r == if duration_nanos(*elapsed) >= duration_nanos(
                self.settings.slow_statements_duration,
            ) {
                self.settings.slow_statements_level
            } else {
                self.settings.statements_level
            },
    {
        if duration_at_least(elapsed, &self.settings.slow_statements_duration) {
            self.settings.slow_statements_level
        } else {
            self.settings.statements_level
        }
    }

    /// The event to log for a query that took `elapsed`, or none when its
    /// level is off. Whether a subscriber wants the event is for the caller
    /// to check.
    pub fn finish_after(&self, elapsed: Duration) -> (r: Option<QueryLogEvent>)
        ensures
            finished_event(*self, elapsed, r),
    {
        let lvl = self.level_for_elapsed(&elapsed);
        match private_level_filter_to_levels(lvl) {
            None => None,
            Some((tracing_level, log_level)) => Some(
                QueryLogEvent {
                    tracing_level,
                    log_level,
                    rows_affected: self.rows_affected,
                    rows_returned: self.rows_returned,
                    elapsed,
                },
            ),
        }
    }

    /// The event to log for the finished query, timed from its start: the
    /// event of [`finish_after`](Self::finish_after) for the time the clock
    /// reports. An event comes whenever both levels are on, and none when
    /// both are off.
    pub fn finish(&self) -> (r: Option<QueryLogEvent>)
        ensures
            exists|elapsed: Duration| #[trigger] finished_event(*self, elapsed, r),
            self.settings.statements_level != LevelFilter::Off
                && self.settings.slow_statements_level != LevelFilter::Off ==> r is Some,
            self.settings.statements_level == LevelFilter::Off
                && self.settings.slow_statements_level == LevelFilter::Off ==> r is None,
    {
        let elapsed = instant_elapsed(&self.start);
        let r = self.finish_after(elapsed);
        assert(finished_event(*self, elapsed, r));
        r
    }

    /// Build the summary line and the formatted SQL for the log event.
    pub fn build_log_payload(&self) -> (r: (String, String))
        ensures
            (r.0@, r.1@) == log_payload(self.sql@),
    {
        let mut summary = parse_query_summary(self.sql);
        let sc = chars_of(summary.as_str());
        let qc = chars_of(self.sql);
        if !crate::text::chars_eq(&sc, qc.as_slice()) {
            push_str_verified(&mut summary, " …");
            let formatted = format_sql(self.sql);
            let mut sql = String::new();
            push_str_verified(&mut sql, "\n\n");
            push_str_verified(&mut sql, formatted.as_str());
            push_str_verified(&mut sql, "\n");
            (summary, sql)
        } else {
            (summary, String::new())
        }
    }
}

impl<'q> QueryLog for QueryLogger<'q> {
    open spec fn counts(&self) -> bool {
        true
    }

    open spec fn returned(&self) -> nat {
        self.rows_returned as nat
    }

    open spec fn affected(&self) -> nat {
        self.rows_affected as nat
    }

    fn inc_rows_returned(&mut self) {
        self.rows_returned = self.rows_returned + 1;
    }

    fn inc_rows_affected(&mut self, n: u64) {
        self.rows_affected = self.rows_affected + n;
    }
}

/// A no-op logger used when query logging is disabled.
#[derive(Debug, Default)]
pub struct NopQueryLogger;

impl QueryLog for NopQueryLogger {
    open spec fn counts(&self) -> bool {
        false
    }

    open spec fn returned(&self) -> nat {
        0
    }

    open spec fn affected(&self) -> nat {
        0
    }

    fn inc_rows_returned(&mut self) {
    }

    fn inc_rows_affected(&mut self, n: u64) {
    }
}

} // verus!
