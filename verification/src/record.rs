//! One log call, from the decision to emit it to the list of writes that
//! put it on the console and in the log file.

use vstd::prelude::*;
use crate::colour::{painted, stream_takes_colours};
use crate::config::LogConfig;
use crate::layout::{format_record, record_lines};
use crate::severity::{Route, Severity};
use crate::sink::Sink;
use crate::timestamp::{stamp_text, Timestamp};

verus! {

/// One write: a text, line break included, and the sink that takes it.
#[derive(Clone, Debug)]
pub struct WriteOp {
    pub sink: Sink,
    pub text: String,
}

impl View for WriteOp {
    type V = (Sink, Seq<char>);

    open spec fn view(&self) -> (Sink, Seq<char>) {
        (self.sink, self.text@)
    }
}

/// The texts of a list of strings.
pub open spec fn texts_of(lines: Seq<String>) -> Seq<Seq<char>> {
    lines.map_values(|line: String| line@)
}

/// A message that is to be emitted, laid out in lines, with what the
/// configuration said of it when it was logged.
#[derive(Clone, Debug)]
pub struct Record {
    /// The severity the message was logged at.
    pub severity: Severity,
    /// The stream rule in force.
    pub route: Route,
    /// Whether console output is coloured.
    pub colours: bool,
    /// Whether every line is copied to the log file.
    pub mirror: bool,
    /// The prefix as it was resolved for this message.
    pub prefix: String,
    /// The lines, in the order they are written, without line breaks.
    pub lines: Vec<String>,
}

impl Record {
    /// The console stream of this record.
    pub open spec fn console_sink(self) -> Sink {
        if self.severity.goes_to_stderr(self.route) {
            Sink::Stderr
        } else {
            Sink::Stdout
        }
    }

    /// Line `i` as the console shows it where its stream takes colours
    /// (`on`) or does not.
    pub open spec fn shown(self, i: int, on: bool) -> Seq<char> {
        if self.colours {
            painted(self.lines@[i]@, self.severity.colour(), on)
        } else {
            self.lines@[i]@
        }
    }

    /// The writes of line `i`: to the console, and then, where the record
    /// is mirrored, the same line to the log file.
    pub open spec fn line_writes(self, i: int, on: bool) -> Seq<(Sink, Seq<char>)> {
        let to_console = (self.console_sink(), self.shown(i, on).push('\n'));
        let to_file = (Sink::File, self.lines@[i]@.push('\n'));
        if self.mirror {
            seq![to_console, to_file]
        } else {
            seq![to_console]
        }
    }

    /// The writes of the first `n` lines, line after line.
    pub open spec fn writes_upto(self, n: nat, on: bool) -> Seq<(Sink, Seq<char>)>
        decreases n,
    {
        if n == 0 {
            Seq::empty()
        } else {
            self.writes_upto((n - 1) as nat, on) + self.line_writes(n - 1, on)
        }
    }

    /// All the writes of this record, in order.
    pub open spec fn planned(self, on: bool) -> Seq<(Sink, Seq<char>)> {
        self.writes_upto(self.lines@.len(), on)
    }

    /// Lays out `body` behind `prefix` and the timestamp `now`.
    pub fn assemble(
        severity: Severity,
        route: Route,
        colours: bool,
        mirror: bool,
        prefix: String,
        now: &Timestamp,
        body: &str,
    ) -> (record: Record)
        ensures
            record.severity == severity,
            record.route == route,
            record.colours == colours,
            record.mirror == mirror,
            record.prefix == prefix,
            texts_of(record.lines@) == record_lines(prefix@, stamp_text(now@), body@),
    {
        let stamp = now.text();
        let lines = format_record(prefix.as_str(), stamp.as_str(), body);
        assert(texts_of(lines@) =~= record_lines(prefix@, stamp_text(now@), body@));
        Record { severity, route, colours, mirror, prefix, lines }
    }

    /// Whether the console output of this record goes to standard error.
    pub fn to_stderr(&self) -> (b: bool)
        ensures
            b == (self.console_sink() == Sink::Stderr),
    {
        self.severity.to_stderr(self.route)
    }

    /// The writes that emit this record where its console stream takes
    /// colours (`on`) or does not: every line goes to the console and, if
    /// the record is mirrored, to the log file right after, so that both
    /// sinks see the lines in the same order.
    pub fn plan(&self, on: bool) -> (ops: Vec<WriteOp>)
        ensures
            ops@.map_values(|op: WriteOp| op@) == self.planned(on),
    {
        let target = if self.to_stderr() {
            Sink::Stderr
        } else {
            Sink::Stdout
        };
        let mut ops: Vec<WriteOp> = Vec::new();
        let mut i: usize = 0;
        while i < self.lines.len()
            invariant
                i <= self.lines@.len(),
                target == self.console_sink(),
                ops@.map_values(|op: WriteOp| op@) == self.writes_upto(i as nat, on),
            decreases self.lines@.len() - i,
        {
            let ghost before = ops@.map_values(|op: WriteOp| op@);
            let line = &self.lines[i];
            let mut shown = if self.colours {
                self.severity.style(line.clone(), self.route).paint(on)
            } else {
                line.clone()
            };
            shown.push('\n');
            ops.push(WriteOp { sink: target, text: shown });
            if self.mirror {
                let mut copy = line.clone();
                copy.push('\n');
                ops.push(WriteOp { sink: Sink::File, text: copy });
            }
            assert(ops@.map_values(|op: WriteOp| op@) =~= before + self.line_writes(i as int, on));
            i = i + 1;
        }
        ops
    }

    /// The writes that emit this record. Where colours are switched on,
    /// the terminal is asked whether the console stream takes them, so the
    /// console texts are the coloured ones or the plain ones; where colours
    /// are switched off, they are the plain ones.
    pub fn writes(&self) -> (ops: Vec<WriteOp>)
        ensures
            ops@.map_values(|op: WriteOp| op@) == self.planned(false) || (self.colours
                && ops@.map_values(|op: WriteOp| op@) == self.planned(true)),
    {
        let on = self.colours && stream_takes_colours(self.to_stderr());
        self.plan(on)
    }
}

/// The texts that `sink` takes from a list of writes, in the order of the
/// list.
pub open spec fn received(writes: Seq<(Sink, Seq<char>)>, sink: Sink) -> Seq<Seq<char>>
    decreases writes.len(),
{
    if writes.len() == 0 {
        Seq::empty()
    } else {
        let earlier = received(writes.drop_last(), sink);
        if writes.last().0 == sink {
            earlier.push(writes.last().1)
        } else {
            earlier
        }
    }
}

/// What a sink takes from two lists of writes, one after the other.
proof fn lemma_received_add(a: Seq<(Sink, Seq<char>)>, b: Seq<(Sink, Seq<char>)>, sink: Sink)
    ensures
        received(a + b, sink) == received(a, sink) + received(b, sink),
    decreases b.len(),
{
    if b.len() == 0 {
        assert(a + b == a);
    } else {
        lemma_received_add(a, b.drop_last(), sink);
        assert((a + b).drop_last() == a + b.drop_last());
    }
}

/// What the sinks take from the writes of the first `n` lines.
proof fn lemma_received_upto(record: Record, n: nat, on: bool)
    requires
        n <= record.lines@.len(),
    ensures
        received(record.writes_upto(n, on), record.console_sink()) == Seq::new(
            n,
            |i: int| record.shown(i, on).push('\n'),
        ),
        record.mirror ==> received(record.writes_upto(n, on), Sink::File) == Seq::new(
            n,
            |i: int| record.lines@[i]@.push('\n'),
        ),
        !record.mirror ==> received(record.writes_upto(n, on), Sink::File) == Seq::<
            Seq<char>,
        >::empty(),
    decreases n,
{
    if n > 0 {
        lemma_received_upto(record, (n - 1) as nat, on);
        let before = record.writes_upto((n - 1) as nat, on);
        let here = record.line_writes(n - 1, on);
        let shown = (record.console_sink(), record.shown(n - 1, on).push('\n'));
        let copied = (Sink::File, record.lines@[n - 1]@.push('\n'));
        lemma_received_add(before, here, record.console_sink());
        lemma_received_add(before, here, Sink::File);
        reveal_with_fuel(received, 3);
        if record.mirror {
            assert(here == seq![shown, copied]);
            assert(here.drop_last() == seq![shown]);
            assert(seq![shown].drop_last() == Seq::<(Sink, Seq<char>)>::empty());
            assert(received(here, record.console_sink()) == seq![shown.1]);
            assert(received(here, Sink::File) == seq![copied.1]);
        } else {
            assert(here == seq![shown]);
            assert(here.drop_last() == Seq::<(Sink, Seq<char>)>::empty());
            assert(received(here, record.console_sink()) == seq![shown.1]);
            assert(received(here, Sink::File) == Seq::<Seq<char>>::empty());
        }
    }
}

/// Both sinks take the lines of a record in the order of the record: the
/// console stream takes every line as it is shown, the log file takes
/// every line as it is, if the record is mirrored, and nothing if it is
/// not. Each text ends in a line break.
pub proof fn lemma_sinks_take_the_lines_in_order(record: Record, on: bool)
    ensures
        received(record.planned(on), record.console_sink()) == Seq::new(
            record.lines@.len(),
            |i: int| record.shown(i, on).push('\n'),
        ),
        record.mirror ==> received(record.planned(on), Sink::File) == Seq::new(
            record.lines@.len(),
            |i: int| record.lines@[i]@.push('\n'),
        ),
        !record.mirror ==> received(record.planned(on), Sink::File) == Seq::<Seq<char>>::empty(),
{
    lemma_received_upto(record, record.lines@.len(), on);
}

/// Decides whether a message is emitted and, if it is, resolves its prefix
/// and lays it out. A message that is less severe than the configured
/// minimum yields nothing, and so does one whose severity is switched off;
/// every other message yields exactly one record.
pub fn compose<F: Fn() -> String>(
    config: &LogConfig<F>,
    severity: Severity,
    now: &Timestamp,
    body: &str,
) -> (out: Option<Record>)
    requires
        config.wf(),
    ensures
        severity.rank() > config.filter.minimum.rank() ==> out is None,
        severity.rank() <= config.filter.minimum.rank() && severity.is_enabled(config.filter)
            ==> out is Some,
        out is None <==> severity.is_suppressed(config.filter),
        out matches Some(record) ==> {
            &&& record.severity == severity
            &&& record.route == config.route
            &&& record.colours == config.colours
            &&& record.mirror == (config.sink is Open)
            &&& config.prefixes.slot(severity.class()).yields(record.prefix)
            &&& texts_of(record.lines@) == record_lines(
                record.prefix@,
                stamp_text(now@),
                body@,
            )
        },
{
    if severity.suppressed(&config.filter) {
        return None;
    }
    let prefix = severity.prefix(&config.prefixes);
    let mirror = config.sink.is_open();
    Some(Record::assemble(severity, config.route, config.colours, mirror, prefix, now, body))
}

} // verus!
