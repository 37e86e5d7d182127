use crate::text::{chars_of, seq_contains, seq_starts_with, upper_chars, upper_seq, vec_contains, vec_occurs_at};
use vstd::prelude::*;

verus! {

/// Lines of the log tail shown at most in the console panel.
pub const DEBUG_CONSOLE_RENDER_LINE_LIMIT: usize = 96;

#[derive(Clone, Copy, Debug, PartialEq, Eq, Structural)]
pub enum LogLevelTone {
    Error,
    Warn,
    Info,
    Debug,
    Trace,
    Plain,
}

#[derive(Clone, Copy, Debug, PartialEq, Eq, Structural)]
pub enum ConsoleFilter {
    All,
    Error,
    Warn,
    Info,
    Debug,
    Trace,
}

/// A line carries a level when, ignoring ASCII case, it contains the level
/// name surrounded by spaces or starts with it.
pub open spec fn line_has_level(line: Seq<char>, spaced: Seq<char>, bare: Seq<char>) -> bool {
    seq_contains(upper_seq(line), spaced) || seq_starts_with(upper_seq(line), bare)
}

/// The first level, in the order error, warn, info, debug, trace, that a line
/// carries.
pub open spec fn spec_log_tone(line: Seq<char>) -> LogLevelTone {
    if line_has_level(line, " ERROR "@, "ERROR"@) {
        LogLevelTone::Error
    } else if line_has_level(line, " WARN "@, "WARN"@) {
        LogLevelTone::Warn
    } else if line_has_level(line, " INFO "@, "INFO"@) {
        LogLevelTone::Info
    } else if line_has_level(line, " DEBUG "@, "DEBUG"@) {
        LogLevelTone::Debug
    } else if line_has_level(line, " TRACE "@, "TRACE"@) {
        LogLevelTone::Trace
    } else {
        LogLevelTone::Plain
    }
}

fn has_level(upper: &Vec<char>, spaced: &str, bare: &str) -> (r: bool)
    ensures
        r == (seq_contains(upper@, spaced@) || seq_starts_with(upper@, bare@)),
{
    let spaced_chars = chars_of(spaced);
    let bare_chars = chars_of(bare);
    vec_contains(upper, &spaced_chars) || vec_occurs_at(upper, &bare_chars, 0)
}

/// Classifies a console line by its log level.
pub fn detect_log_tone(line: &str) -> (tone: LogLevelTone)
    ensures
        tone == spec_log_tone(line@),
{
    let upper = upper_chars(line);
    if has_level(&upper, " ERROR ", "ERROR") {
        LogLevelTone::Error
    } else if has_level(&upper, " WARN ", "WARN") {
        LogLevelTone::Warn
    } else if has_level(&upper, " INFO ", "INFO") {
        LogLevelTone::Info
    } else if has_level(&upper, " DEBUG ", "DEBUG") {
        LogLevelTone::Debug
    } else if has_level(&upper, " TRACE ", "TRACE") {
        LogLevelTone::Trace
    } else {
        LogLevelTone::Plain
    }
}

pub open spec fn spec_log_badge_label(tone: LogLevelTone) -> Seq<char> {
    match tone {
        LogLevelTone::Error => "ERROR"@,
        LogLevelTone::Warn => "WARN"@,
        LogLevelTone::Info => "INFO"@,
        LogLevelTone::Debug => "DEBUG"@,
        LogLevelTone::Trace => "TRACE"@,
        LogLevelTone::Plain => "LOG"@,
    }
}

/// The badge shown in front of a console line.
pub fn log_badge_label(tone: LogLevelTone) -> (r: &'static str)
    ensures
        r@ == spec_log_badge_label(tone),
{
    match tone {
        LogLevelTone::Error => "ERROR",
        LogLevelTone::Warn => "WARN",
        LogLevelTone::Info => "INFO",
        LogLevelTone::Debug => "DEBUG",
        LogLevelTone::Trace => "TRACE",
        LogLevelTone::Plain => "LOG",
    }
}

pub open spec fn spec_log_matches_filter(tone: LogLevelTone, filter: ConsoleFilter) -> bool {
    match filter {
        ConsoleFilter::All => true,
        ConsoleFilter::Error => tone == LogLevelTone::Error,
        ConsoleFilter::Warn => tone == LogLevelTone::Warn,
        ConsoleFilter::Info => tone == LogLevelTone::Info,
        ConsoleFilter::Debug => tone == LogLevelTone::Debug,
        ConsoleFilter::Trace => tone == LogLevelTone::Trace,
    }
}

/// The level a console filter is named after, as its badge reads.
pub open spec fn filter_level_name(filter: ConsoleFilter) -> Seq<char> {
    match filter {
        ConsoleFilter::All => "ALL"@,
        ConsoleFilter::Error => "ERROR"@,
        ConsoleFilter::Warn => "WARN"@,
        ConsoleFilter::Info => "INFO"@,
        ConsoleFilter::Debug => "DEBUG"@,
        ConsoleFilter::Trace => "TRACE"@,
    }
}

/// The filter that shows everything passes every line; every other filter
/// passes exactly the lines whose badge names the filter's level, so each
/// level filter shows its own level and no other, and plain lines show only
/// under the filter for everything.
pub proof fn law_level_filter_shows_its_level(tone: LogLevelTone, filter: ConsoleFilter)
    ensures
        spec_log_matches_filter(tone, filter) <==> (filter is All || spec_log_badge_label(tone) == filter_level_name(
            filter,
        )),
{
    reveal_strlit("ERROR");
    reveal_strlit("WARN");
    reveal_strlit("INFO");
    reveal_strlit("DEBUG");
    reveal_strlit("TRACE");
    reveal_strlit("LOG");
    reveal_strlit("ALL");
    let a = spec_log_badge_label(tone);
    let b = filter_level_name(filter);
    if !(filter is All) && a == b && !spec_log_matches_filter(tone, filter) {
        assert(a.len() == b.len());
        assert(a[0] == b[0]);
        assert(a[a.len() - 1] == b[b.len() - 1]);
    }
}

/// Whether a line of the given level passes the console filter; plain lines
/// pass only the filter that shows everything.
pub fn log_matches_filter(tone: LogLevelTone, filter: ConsoleFilter) -> (r: bool)
    ensures
        r == spec_log_matches_filter(tone, filter),
        r == (filter is All || spec_log_badge_label(tone) == filter_level_name(filter)),
{
    proof {
        law_level_filter_shows_its_level(tone, filter);
    }
    match filter {
        ConsoleFilter::All => true,
        ConsoleFilter::Error => tone == LogLevelTone::Error,
        ConsoleFilter::Warn => tone == LogLevelTone::Warn,
        ConsoleFilter::Info => tone == LogLevelTone::Info,
        ConsoleFilter::Debug => tone == LogLevelTone::Debug,
        ConsoleFilter::Trace => tone == LogLevelTone::Trace,
    }
}

/// Indices `< n` of the lines that pass the filter.
pub open spec fn matching_indices(lines: Seq<String>, filter: ConsoleFilter, n: int) -> Seq<int>
    decreases n,
{
    if n <= 0 {
        Seq::empty()
    } else {
        let rest = matching_indices(lines, filter, n - 1);
        if spec_log_matches_filter(spec_log_tone(lines[n - 1]@), filter) {
            rest.push(n - 1)
        } else {
            rest
        }
    }
}

/// The console shows the newest [`DEBUG_CONSOLE_RENDER_LINE_LIMIT`] lines
/// that pass the filter, oldest first. Returns their indices.
pub fn select_console_lines(lines: &Vec<String>, filter: ConsoleFilter) -> (shown: Vec<usize>)
    ensures
        shown@.map_values(|i: usize| i as int) == crate::debug_state::keep_newest(
            matching_indices(lines@, filter, lines@.len() as int),
            DEBUG_CONSOLE_RENDER_LINE_LIMIT as nat,
        ),
{
    let mut all: Vec<usize> = Vec::new();
    let mut i: usize = 0;
    while i < lines.len()
        invariant
            i <= lines@.len(),
            all@.map_values(|k: usize| k as int) == matching_indices(lines@, filter, i as int),
        decreases lines@.len() - i,
    {
        let tone = detect_log_tone(lines[i].as_str());
        if log_matches_filter(tone, filter) {
            all.push(i);
        }
        i += 1;
        proof {
            assert(all@.map_values(|k: usize| k as int) =~= matching_indices(lines@, filter, i as int));
        }
    }
    let start = if all.len() > DEBUG_CONSOLE_RENDER_LINE_LIMIT {
        all.len() - DEBUG_CONSOLE_RENDER_LINE_LIMIT
    } else {
        0
    };
    let mut shown: Vec<usize> = Vec::new();
    let mut j = start;
    while j < all.len()
        invariant
            start <= j <= all@.len(),
            shown@ == all@.subrange(start as int, j as int),
        decreases all@.len() - j,
    {
        shown.push(all[j]);
        j += 1;
        proof {
            assert(shown@ =~= all@.subrange(start as int, j as int));
        }
    }
    proof {
        assert(shown@.map_values(|k: usize| k as int) =~= crate::debug_state::keep_newest(
            all@.map_values(|k: usize| k as int),
            DEBUG_CONSOLE_RENDER_LINE_LIMIT as nat,
        ));
    }
    shown
}

/// `"yes"` or `"no"`.
pub fn bool_label(value: bool) -> (r: &'static str)
    ensures
        r@ == (if value { "yes"@ } else { "no"@ }),
{
    if value {
        "yes"
    } else {
        "no"
    }
}

/// A shown value, or the fallback text when the value is empty.
pub fn optional_text(value: &str, fallback: &str) -> (r: String)
    ensures
        r@ == (if value@.len() == 0 { fallback@ } else { value@ }),
{
    if value.is_empty() {
        String::from_str(fallback)
    } else {
        String::from_str(value)
    }
}

} // verus!
