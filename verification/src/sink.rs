//! The shared line log of one run.
//!
//! Two tee workers, one per output stream of the external process, append
//! every line they read to a single log, serialized by the caller's lock.
//! The model here is the sequence of records appended so far: it says
//! exactly which lines the durable file holds, that each stream's lines
//! keep their order whatever interleaving the workers produce, and that
//! nothing already captured is lost by later appends.

use crate::command::str_views;
use vstd::prelude::*;

verus! {

/// Which output stream of the external process a line came from.
#[derive(Debug, Clone, Copy, PartialEq, Eq, Structural)]
pub enum StreamKind {
    Stdout,
    Stderr,
}

/// One captured line, tagged with the stream it came from.
#[derive(Debug, Clone)]
pub struct LogRecord {
    pub stream: StreamKind,
    pub line: String,
}

/// In-memory model of the durable log for one run: the records appended
/// so far, in the order in which the two tee workers took the lock.
/// Zero records is a legitimate state — a silent process is not an error.
#[derive(Debug)]
pub struct LogSink {
    records: Vec<LogRecord>,
}

/// The model of one record: its stream tag and the characters of its line.
pub open spec fn record_view(r: LogRecord) -> (StreamKind, Seq<char>) {
    (r.stream, r.line@)
}

impl View for LogSink {
    type V = Seq<(StreamKind, Seq<char>)>;

    closed spec fn view(&self) -> Seq<(StreamKind, Seq<char>)> {
        self.records@.map_values(|r: LogRecord| record_view(r))
    }
}

/// The lines of one stream, in order, as they stand in the log.
pub open spec fn stream_lines(log: Seq<(StreamKind, Seq<char>)>, k: StreamKind) -> Seq<Seq<char>>
    decreases log.len(),
{
    if log.len() == 0 {
        Seq::empty()
    } else if log.last().0 == k {
        stream_lines(log.drop_last(), k).push(log.last().1)
    } else {
        stream_lines(log.drop_last(), k)
    }
}

/// Appending one record extends its own stream's lines by exactly that
/// line and leaves the other stream's lines untouched.
pub proof fn lemma_stream_lines_push(
    log: Seq<(StreamKind, Seq<char>)>,
    rec: (StreamKind, Seq<char>),
    k: StreamKind,
)
    ensures
        stream_lines(log.push(rec), k) == if rec.0 == k {
            stream_lines(log, k).push(rec.1)
        } else {
            stream_lines(log, k)
        },
{
    assert(log.push(rec).drop_last() =~= log);
}

/// Every record belongs to exactly one stream: the two per-stream line
/// sequences together account for the whole log.
pub proof fn lemma_stream_lines_partition(log: Seq<(StreamKind, Seq<char>)>)
    ensures
        stream_lines(log, StreamKind::Stdout).len() + stream_lines(log, StreamKind::Stderr).len()
            == log.len(),
    decreases log.len(),
{
    if log.len() > 0 {
        lemma_stream_lines_partition(log.drop_last());
    }
}

/// Whatever either worker appends later, the lines one stream already has
/// in the log stay there, in the same order: partial output captured
/// before a crash or a kill is never discarded.
pub proof fn lemma_stream_lines_retained(
    log: Seq<(StreamKind, Seq<char>)>,
    more: Seq<(StreamKind, Seq<char>)>,
    k: StreamKind,
)
    ensures
        stream_lines(log, k).is_prefix_of(stream_lines(log + more, k)),
    decreases more.len(),
{
    if more.len() == 0 {
        assert(log + more =~= log);
    } else {
        lemma_stream_lines_retained(log, more.drop_last(), k);
        let shorter = log + more.drop_last();
        assert(log + more =~= shorter.push(more.last()));
        lemma_stream_lines_push(shorter, more.last(), k);
        let a = stream_lines(log, k);
        let b = stream_lines(shorter, k);
        if more.last().0 == k {
            assert(a =~= b.push(more.last().1).subrange(0, a.len() as int));
        }
    }
}

impl LogSink {
    /// A sink with nothing captured yet.
    pub fn new() -> (r: LogSink)
        ensures
            r@ == Seq::<(StreamKind, Seq<char>)>::empty(),
    {
        let r = LogSink { records: Vec::new() };
        proof {
            assert(r@ =~= Seq::<(StreamKind, Seq<char>)>::empty());
        }
        r
    }

    /// Number of records captured so far.
    pub fn len(&self) -> (r: usize)
        ensures
            r == self@.len(),
    {
        self.records.len()
    }

    /// The stream tag of one record.
    pub fn stream_at(&self, idx: usize) -> (r: StreamKind)
        requires
            idx < self@.len(),
        ensures
            r == self@[idx as int].0,
    {
        self.records[idx].stream
    }

    /// The line of one record.
    pub fn line_at(&self, idx: usize) -> (r: &String)
        requires
            idx < self@.len(),
        ensures
            r@ == self@[idx as int].1,
    {
        &self.records[idx].line
    }

    /// Append one captured line, under the caller's lock. The log grows
    /// by exactly this record and nothing already captured moves.
    pub fn append(&mut self, stream: StreamKind, line: String)
        ensures
            final(self)@ == old(self)@.push((stream, line@)),
    {
        let ghost line_view = line@;
        self.records.push(LogRecord { stream, line });
        proof {
            assert(self@ =~= old(self)@.push((stream, line_view)));
        }
    }
}

/// What one record looks like as a line of the durable file: stdout lines
/// as read, stderr lines marked so the two streams stay tellable apart in
/// the combined file.
pub open spec fn rendered_spec(k: StreamKind, line: Seq<char>) -> Seq<char> {
    match k {
        StreamKind::Stdout => line,
        StreamKind::Stderr => "STDERR: "@ + line,
    }
}

/// Render one record for the durable file.
pub fn rendered_line(stream: StreamKind, line: &str) -> (r: String)
    ensures
        r@ == rendered_spec(stream, line@),
{
    match stream {
        StreamKind::Stdout => line.to_owned(),
        StreamKind::Stderr => {
            let mut s = "STDERR: ".to_owned();
            s.append(line);
            s
        },
    }
}

/// How many entries of a schedule belong to one stream.
pub open spec fn count_kind(s: Seq<StreamKind>, k: StreamKind) -> nat
    decreases s.len(),
{
    if s.len() == 0 {
        0
    } else {
        (if s.last() == k {
            1nat
        } else {
            0nat
        }) + count_kind(s.drop_last(), k)
    }
}

/// A prefix of a schedule never holds more entries of a stream than the
/// whole schedule.
pub proof fn lemma_count_kind_take_le(s: Seq<StreamKind>, m: int, k: StreamKind)
    requires
        0 <= m <= s.len(),
    ensures
        count_kind(s.take(m), k) <= count_kind(s, k),
    decreases s.len() - m,
{
    if m == s.len() {
        assert(s.take(m) =~= s);
    } else {
        lemma_count_kind_take_le(s, m + 1, k);
        assert(s.take(m + 1).drop_last() =~= s.take(m));
    }
}

/// One run's worth of tee output, merged in the order the schedule gives:
/// entry `n` of the schedule says which worker appended the `n`-th record.
/// This models every interleaving the two concurrent workers can produce.
/// Whatever the schedule, the log ends with exactly all lines of both
/// streams, and each stream's own lines in their original order.
pub fn tee_merge(
    out_lines: &Vec<String>,
    err_lines: &Vec<String>,
    schedule: &Vec<StreamKind>,
) -> (r: LogSink)
    requires
        count_kind(schedule@, StreamKind::Stdout) == out_lines@.len(),
        count_kind(schedule@, StreamKind::Stderr) == err_lines@.len(),
    ensures
        r@.len() == out_lines@.len() + err_lines@.len(),
        stream_lines(r@, StreamKind::Stdout) == str_views(out_lines@),
        stream_lines(r@, StreamKind::Stderr) == str_views(err_lines@),
{
    let out_len = out_lines.len();
    let err_len = err_lines.len();
    let mut sink = LogSink::new();
    let mut i: usize = 0;
    let mut j: usize = 0;
    let mut n: usize = 0;
    while n < schedule.len()
        invariant
            n <= schedule.len(),
            out_len == out_lines@.len(),
            err_len == err_lines@.len(),
            i == count_kind(schedule@.take(n as int), StreamKind::Stdout),
            j == count_kind(schedule@.take(n as int), StreamKind::Stderr),
            i <= out_lines@.len(),
            j <= err_lines@.len(),
            count_kind(schedule@, StreamKind::Stdout) == out_lines@.len(),
            count_kind(schedule@, StreamKind::Stderr) == err_lines@.len(),
            sink@.len() == i + j,
            stream_lines(sink@, StreamKind::Stdout) =~= str_views(out_lines@.take(i as int)),
            stream_lines(sink@, StreamKind::Stderr) =~= str_views(err_lines@.take(j as int)),
        decreases schedule.len() - n,
    {
        let k = schedule[n];
        proof {
            assert(schedule@.take(n + 1).drop_last() =~= schedule@.take(n as int));
            assert(schedule@.take(n + 1).last() == k);
            lemma_count_kind_take_le(schedule@, n + 1, k);
        }
        let ghost pre = sink@;
        match k {
            StreamKind::Stdout => {
                proof {
                    assert(count_kind(schedule@.take(n + 1), StreamKind::Stdout) == i + 1);
                    assert(i < out_len);
                }
                let line = out_lines[i].clone();
                sink.append(StreamKind::Stdout, line);
                proof {
                    let rec = (StreamKind::Stdout, out_lines@[i as int]@);
                    lemma_stream_lines_push(pre, rec, StreamKind::Stdout);
                    lemma_stream_lines_push(pre, rec, StreamKind::Stderr);
                    assert(str_views(out_lines@.take(i + 1)) =~= str_views(
                        out_lines@.take(i as int),
                    ).push(out_lines@[i as int]@));
                }
                i = i + 1;
            },
            StreamKind::Stderr => {
                proof {
                    assert(count_kind(schedule@.take(n + 1), StreamKind::Stderr) == j + 1);
                    assert(j < err_len);
                }
                let line = err_lines[j].clone();
                sink.append(StreamKind::Stderr, line);
                proof {
                    let rec = (StreamKind::Stderr, err_lines@[j as int]@);
                    lemma_stream_lines_push(pre, rec, StreamKind::Stdout);
                    lemma_stream_lines_push(pre, rec, StreamKind::Stderr);
                    assert(str_views(err_lines@.take(j + 1)) =~= str_views(
                        err_lines@.take(j as int),
                    ).push(err_lines@[j as int]@));
                }
                j = j + 1;
            },
        }
        n = n + 1;
    }
    proof {
        assert(schedule@.take(schedule@.len() as int) =~= schedule@);
        assert(out_lines@.take(out_lines@.len() as int) =~= out_lines@);
        assert(err_lines@.take(err_lines@.len() as int) =~= err_lines@);
    }
    sink
}

} // verus!
