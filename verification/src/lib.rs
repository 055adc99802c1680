//! An in-process log buffer: leveled entries are accumulated in memory,
//! stamped at record time, and written out once, filtered by a severity
//! selected when the flush happens.
//!
//! A [`Logger`] appends one [`LogEntry`] per recording call, each carrying
//! the local wall-clock moment of that call. Nothing is written until
//! [`Logger::flush`] resolves the filter and the target path and turns the
//! buffer into the exact list of lines to be written; a host program
//! performs the writes and then marks the buffer, after which a further
//! flush asks for no I/O.

pub mod level;
pub mod path;
pub mod time;

use vstd::prelude::*;
use vstd::string::StringExecFns;

use crate::level::{included, level_label, spec_included, spec_level_label, LogLevel};
use crate::path::{resolve_target, spec_resolve_target, Platform};
use crate::time::{now_timestamp, push_timestamp, spec_timestamp_chars, ts_valid, Timestamp};

verus! {

/// One recorded entry: the moment of the recording call, its severity tag,
/// and an owned copy of the message.
#[derive(Debug)]
pub struct LogEntry {
    pub timestamp: Timestamp,
    pub level: LogLevel,
    pub message: String,
}

/// The in-memory buffer: an ordered, append-only sequence of entries, an
/// optional target path, and a flag recording whether a flush has already
/// been carried out.
#[derive(Debug)]
pub struct Logger {
    pub entries: Vec<LogEntry>,
    pub file_path: Option<String>,
    pub flushed: bool,
}

/// What a flush asks its caller to do: nothing, because the buffer was
/// already flushed, or write the given lines to the given path.
#[derive(Debug)]
pub enum FlushAction {
    NoIo,
    Write { path: String, lines: Vec<String> },
}

/// The one line an entry is written as:
/// `[YYYY-MM-DD HH-MM-SS] <Level>: <message>` (without the newline).
pub open spec fn spec_line(e: LogEntry) -> Seq<char> {
    "["@ + spec_timestamp_chars(e.timestamp) + "] "@ + spec_level_label(e.level)
        + ": "@ + e.message@
}

/// The lines a flush writes for `entries` under `filter`: exactly the
/// entries passing the filter, in their original order, each as its line.
pub open spec fn spec_render(entries: Seq<LogEntry>, filter: LogLevel) -> Seq<Seq<char>>
    decreases entries.len(),
{
    if entries.len() == 0 {
        Seq::empty()
    } else {
        let prefix = spec_render(entries.drop_last(), filter);
        if spec_included(filter, entries.last().level) {
            prefix.push(spec_line(entries.last()))
        } else {
            prefix
        }
    }
}

/// The I/O a flush of `l` under `filter` on `platform` calls for: `None`
/// once the buffer is flushed, otherwise the resolved target path and the
/// filtered, formatted lines.
pub open spec fn spec_flush_action(l: Logger, filter: LogLevel, platform: Platform) -> Option<
    (Seq<char>, Seq<Seq<char>>),
> {
    if l.flushed {
        Option::None
    } else {
        Option::Some(
            (
                spec_resolve_target(l.file_path.deep_view(), platform),
                spec_render(l.entries@, filter),
            ),
        )
    }
}

/// The abstract content of a [`FlushAction`].
pub open spec fn spec_action_view(a: FlushAction) -> Option<(Seq<char>, Seq<Seq<char>>)> {
    match a {
        FlushAction::NoIo => Option::None,
        FlushAction::Write { path, lines } => Option::Some((path@, lines.deep_view())),
    }
}

/// Relates a buffer before and after one recording call: one entry was
/// appended, tagged `level`, carrying `message` and a well-formed
/// record-time stamp; everything else is unchanged.
pub open spec fn spec_recorded(
    pre: Logger,
    post: Logger,
    level: LogLevel,
    message: Seq<char>,
) -> bool {
    &&& post.entries@.len() == pre.entries@.len() + 1
    &&& post.entries@.drop_last() == pre.entries@
    &&& post.entries@.last().level == level
    &&& post.entries@.last().message@ == message
    &&& ts_valid(post.entries@.last().timestamp)
    &&& post.file_path == pre.file_path
    &&& post.flushed == pre.flushed
}

/// Formats one entry as its output line.
pub fn format_line(e: &LogEntry) -> (r: String)
    ensures
        r@ == spec_line(*e),
{
    let mut s = String::from_str("[");
    push_timestamp(&mut s, &e.timestamp);
    s.append("] ");
    s.append(level_label(e.level));
    s.append(": ");
    s.append(e.message.as_str());
    assert(s@ =~= spec_line(*e));
    s
}

impl Logger {
    /// A fresh buffer bound to `file_path`: no entries, not yet flushed.
    pub fn new(file_path: String) -> (r: Logger)
        ensures
            r.entries@ == Seq::<LogEntry>::empty(),
            r.file_path == Option::Some(file_path),
            !r.flushed,
    {
        Logger { entries: Vec::new(), file_path: Option::Some(file_path), flushed: false }
    }

    /// A fresh buffer with no path of its own: a flush will fall back to
    /// the platform default target.
    pub fn new_unbound() -> (r: Logger)
        ensures
            r.entries@ == Seq::<LogEntry>::empty(),
            r.file_path is None,
            !r.flushed,
    {
        Logger { entries: Vec::new(), file_path: Option::None, flushed: false }
    }

    /// Appends one entry stamped with the current local time.
    ///
    /// `Default` tags no entry: it exists only as the fallback filter.
    pub fn record(&mut self, level: LogLevel, message: &str)
        requires
            !(level is Default),
        ensures
            spec_recorded(*old(self), *final(self), level, message@),
    {
        let timestamp = now_timestamp();
        self.entries.push(LogEntry { timestamp, level, message: String::from_str(message) });
        proof {
            assert(final(self).entries@.drop_last() =~= old(self).entries@);
        }
    }

    /// Records `message` at the `Debug` level, stamped now.
    pub fn debug(&mut self, message: &str)
        ensures
            spec_recorded(*old(self), *final(self), LogLevel::Debug, message@),
    {
        self.record(LogLevel::Debug, message);
    }

    /// Records `message` at the `Info` level, stamped now.
    pub fn info(&mut self, message: &str)
        ensures
            spec_recorded(*old(self), *final(self), LogLevel::Info, message@),
    {
        self.record(LogLevel::Info, message);
    }

    /// Records `message` at the `Error` level, stamped now.
    pub fn error(&mut self, message: &str)
        ensures
            spec_recorded(*old(self), *final(self), LogLevel::Error, message@),
    {
        self.record(LogLevel::Error, message);
    }

    /// Resolves one flush: no I/O when the buffer was already flushed,
    /// otherwise the target path together with exactly the lines that pass
    /// `filter`, in their original order. The buffer itself is untouched;
    /// the caller performs the writes and, on success, calls
    /// [`Logger::mark_flushed`].
    pub fn flush(&self, filter: LogLevel, platform: Platform) -> (r: FlushAction)
        ensures
            spec_action_view(r) == spec_flush_action(*self, filter, platform),
    {
        if self.flushed {
            return FlushAction::NoIo;
        }
        let path = resolve_target(&self.file_path, platform);
        let mut lines: Vec<String> = Vec::new();
        let n = self.entries.len();
        let mut i: usize = 0;
        while i < n
            invariant
                i <= n,
                n == self.entries.len(),
                lines.deep_view() == spec_render(self.entries@.take(i as int), filter),
            decreases n - i,
        {
            let ghost prev = lines.deep_view();
            let e = &self.entries[i];
            if included(filter, e.level) {
                let line = format_line(e);
                let ghost line_view = line@;
                lines.push(line);
                proof {
                    assert(lines.deep_view() =~= prev.push(line_view));
                }
            }
            proof {
                let taken = self.entries@.take(i as int + 1);
                assert(taken.drop_last() =~= self.entries@.take(i as int));
                assert(taken.last() == self.entries@[i as int]);
            }
            i = i + 1;
        }
        proof {
            assert(self.entries@.take(n as int) =~= self.entries@);
        }
        FlushAction::Write { path, lines }
    }

    /// Marks the buffer flushed, to be called once the lines of a
    /// [`FlushAction::Write`] have all been written; entries and path are
    /// untouched, and every later flush resolves to no I/O.
    pub fn mark_flushed(&mut self)
        ensures
            final(self).entries == old(self).entries,
            final(self).file_path == old(self).file_path,
            final(self).flushed,
    {
        self.flushed = true;
    }
}

/// Law: the lines of a flush are exactly the filtered subset of the
/// buffered entries, each formatted as its line, in original insertion
/// order — a filter of the sequence followed by a map, nothing reordered,
/// nothing deduplicated.
pub proof fn lemma_render_is_filtered_subset(entries: Seq<LogEntry>, filter: LogLevel)
    ensures
        spec_render(entries, filter) == entries.filter(
            |e: LogEntry| spec_included(filter, e.level),
        ).map_values(|e: LogEntry| spec_line(e)),
    decreases entries.len(),
{
    reveal(Seq::filter);
    let pred = |e: LogEntry| spec_included(filter, e.level);
    let f = |e: LogEntry| spec_line(e);
    if entries.len() == 0 {
        assert(spec_render(entries, filter) =~= entries.filter(pred).map_values(f));
    } else {
        lemma_render_is_filtered_subset(entries.drop_last(), filter);
        assert(spec_render(entries, filter) =~= entries.filter(pred).map_values(f));
    }
}

/// Law: a second flush is silent. Whatever filter and platform either call
/// used, once a buffer has been marked flushed, flushing it resolves to no
/// I/O at all.
pub proof fn lemma_second_flush_is_silent(l: Logger, filter: LogLevel, platform: Platform)
    requires
        l.flushed,
    ensures
        spec_flush_action(l, filter, platform) is None,
{
}

/// Law: the verbose filters hide nothing. Under `Default` and under
/// `Debug`, the flush writes one line per buffered entry, in order,
/// whatever each entry's own severity is.
pub proof fn lemma_verbose_filters_keep_all(entries: Seq<LogEntry>, filter: LogLevel)
    requires
        filter is Default || filter is Debug,
    ensures
        spec_render(entries, filter) == entries.map_values(|e: LogEntry| spec_line(e)),
    decreases entries.len(),
{
    let f = |e: LogEntry| spec_line(e);
    if entries.len() == 0 {
        assert(spec_render(entries, filter) =~= entries.map_values(f));
    } else {
        lemma_verbose_filters_keep_all(entries.drop_last(), filter);
        assert(entries.drop_last().map_values(f).push(f(entries.last())) =~= entries.map_values(
            f,
        ));
    }
}

} // verus!
