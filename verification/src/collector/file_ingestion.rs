//! The file tail: which change notices lead to a reading of a file, from
//! where a file is read on, and what records its lines give.

use vstd::prelude::*;
use vstd::slice::slice_subrange;
use crate::models::{default_timestamp, is_utc_stamp, views, LogEntry, LogEntryView};
use crate::queue::IngestionQueue;
use crate::wire::{decoded_record, parse_record};

verus! {

/// The directory whose files are tailed.
#[derive(Debug, Clone, PartialEq, Eq)]
pub struct FileIngestionConfig {
    pub log_directory: String,
}

/// How many paths wait at most between the notifier and the reader.
pub const HANDOFF_CAPACITY: usize = 100;

/// What a change notice says has happened to its paths.
#[derive(Debug, Clone, Copy, PartialEq, Eq, Structural)]
pub enum ChangeKind {
    Any,
    Access,
    Create,
    Modify,
    Remove,
    Other,
}

/// How many of `count` paths a hand-off queue takes that holds `held` of at
/// most `limit`: as many as it has room for.
pub open spec fn taken(held: nat, limit: nat, count: nat) -> nat {
    if held + count <= limit {
        count
    } else {
        (limit - held) as nat
    }
}

/// The position of the first line feed of `bytes` at or after `from`, or the
/// length of `bytes` where there is none.
pub open spec fn line_end(bytes: Seq<u8>, from: int) -> int
    decreases bytes.len() - from,
{
    if from < 0 || from >= bytes.len() {
        bytes.len() as int
    } else if bytes[from] == 10u8 {
        from
    } else {
        line_end(bytes, from + 1)
    }
}

/// The complete lines of `bytes` from the position `from` on: each run of
/// bytes up to a line feed, without that line feed, in order. What follows the
/// last line feed is no complete line.
pub open spec fn complete_lines(bytes: Seq<u8>, from: int) -> Seq<Seq<u8>>
    decreases bytes.len() - from,
{
    let end = line_end(bytes, from);
    if from < 0 || end < from || end >= bytes.len() {
        Seq::empty()
    } else {
        seq![bytes.subrange(from, end)] + complete_lines(bytes, end + 1)
    }
}

/// The position behind the last complete line of `bytes` that begins at or
/// after `from`, or `from` itself where no line is complete.
pub open spec fn lines_end(bytes: Seq<u8>, from: int) -> int
    decreases bytes.len() - from,
{
    let end = line_end(bytes, from);
    if from < 0 || end < from || end >= bytes.len() {
        from
    } else {
        lines_end(bytes, end + 1)
    }
}

/// The records that lines give when they are read at the time `now`: one for
/// each well-formed line, in the order of the lines.
pub open spec fn line_records(lines: Seq<Seq<u8>>, now: Seq<char>) -> Seq<LogEntryView>
    decreases lines.len(),
{
    if lines.len() == 0 {
        Seq::empty()
    } else {
        let front = line_records(lines.drop_last(), now);
        match decoded_record(lines.last(), now) {
            Ok(record) => front.push(record),
            Err(_) => front,
        }
    }
}

/// The position after `consumed` bytes from the position `from`, or the last
/// position that there is where that is sooner.
pub open spec fn advanced(from: u64, consumed: int) -> u64 {
    if from + consumed > u64::MAX {
        u64::MAX
    } else {
        (from + consumed) as u64
    }
}

/// Where the reading of one file stands.
#[derive(Debug, Clone, Copy, PartialEq, Eq)]
pub struct FileCursor {
    /// How many bytes of the file have been read as complete lines.
    pub offset: u64,
}

/// Hands the paths of a change notice to the reader. Only a notice of a
/// modification counts. Its paths join the hand-off queue in their order for
/// as long as it has room, and the others are discarded: they only ask for
/// another reading of a file.
pub fn on_change(handoff: &mut IngestionQueue<String>, kind: ChangeKind, paths: Vec<String>)
    ensures
        final(handoff).limit() == old(handoff).limit(),
        final(handoff)@ == if kind == ChangeKind::Modify {
            old(handoff)@ + paths@.take(
                taken(old(handoff)@.len(), old(handoff).limit(), paths@.len()) as int,
            )
        } else {
            old(handoff)@
        },
{
    if kind != ChangeKind::Modify {
        return ;
    }
    let ghost before = handoff@;
    let ghost all = paths@;
    let ghost limit = handoff.limit();
    let room = handoff.free();
    if room == 0 {
        proof {
            assert(before + all.take(0) =~= before);
        }
        return ;
    }
    for path in it: paths
        invariant
            it.seq() == all,
            handoff.limit() == limit,
            before.len() + room == limit,
            handoff@ == before + all.take(taken(before.len(), limit, it.index() as nat) as int),
    {
        let took = handoff.offer(path);
        proof {
            let n = it.index();
            if took {
                assert(all.take(n + 1) =~= all.take(n).push(path));
                assert(before + all.take(n + 1) =~= (before + all.take(n)).push(path));
            }
        }
    }
    proof {
        assert(all.take(all.len() as int) =~= all);
    }
}

/// The position of the first line feed of `bytes` at or after `from`, or the
/// length of `bytes` where there is none.
fn find_line_end(bytes: &[u8], from: usize) -> (r: usize)
    requires
        from <= bytes@.len(),
    ensures
        r == line_end(bytes@, from as int),
        from <= r <= bytes@.len(),
{
    let mut i: usize = from;
    while i < bytes.len()
        invariant
            from <= i <= bytes@.len(),
            line_end(bytes@, from as int) == line_end(bytes@, i as int),
        decreases bytes@.len() - i,
    {
        if bytes[i] == 10u8 {
            return i;
        }
        i += 1;
    }
    i
}

impl FileCursor {
    /// The cursor of a file of which nothing has been read.
    pub fn new() -> (r: FileCursor)
        ensures
            r.offset == 0,
    {
        FileCursor { offset: 0 }
    }

    /// From where a file that is now `file_len` bytes long is read on: from
    /// where the last reading stopped, or from the start where the file has
    /// become shorter than that, as a file does that was begun anew.
    pub fn resume_at(&self, file_len: u64) -> (r: u64)
        ensures
            r == if self.offset <= file_len {
                self.offset
            } else {
                0
            },
    {
        if self.offset <= file_len {
            self.offset
        } else {
            0
        }
    }

    /// Reads `chunk`, the bytes of a file from the position `from` to its
    /// end, at the time `now`: makes the records of its complete lines, and
    /// moves the cursor behind the last of them, so that the next reading
    /// begins with the line that is not yet complete. A malformed line gives
    /// no record and does not stop the reading.
    pub fn ingest_log_file_at(&mut self, from: u64, chunk: &[u8], now: &str) -> (r: Vec<LogEntry>)
        ensures
            views(r@) == line_records(complete_lines(chunk@, 0), now@),
            final(self).offset == advanced(from, lines_end(chunk@, 0)),
    {
        let ghost all = complete_lines(chunk@, 0);
        let ghost done: Seq<Seq<u8>> = Seq::empty();
        let mut out: Vec<LogEntry> = Vec::new();
        let mut start: usize = 0;
        let mut end = find_line_end(chunk, 0);
        while end < chunk.len()
            invariant
                start <= end <= chunk@.len(),
                end == line_end(chunk@, start as int),
                all == done + complete_lines(chunk@, start as int),
                lines_end(chunk@, 0) == lines_end(chunk@, start as int),
                views(out@) == line_records(done, now@),
            decreases chunk@.len() - start,
        {
            let line = slice_subrange(chunk, start, end);
            proof {
                assert(done + (seq![line@] + complete_lines(chunk@, end + 1)) =~= done.push(line@)
                    + complete_lines(chunk@, end + 1));
                assert(done.push(line@).drop_last() =~= done);
            }
            match parse_record(line, now) {
                Ok(record) => {
                    let ghost before = out@;
                    out.push(record);
                    proof {
                        assert(views(out@) =~= views(before).push(record@));
                    }
                },
                Err(_) => {},
            }
            proof {
                done = done.push(line@);
            }
            start = end + 1;
            end = find_line_end(chunk, start);
        }
        proof {
            assert(done + Seq::<Seq<u8>>::empty() =~= done);
        }
        self.offset = if from > u64::MAX - start as u64 {
            u64::MAX
        } else {
            from + start as u64
        };
        out
    }

    /// Reads `chunk`, the bytes of a file from the position `from` to its
    /// end, with the time of this call for the lines that carry no timestamp.
    /// Whatever the clock says, the records are those of
    /// [`FileCursor::ingest_log_file_at`] at some time that the clock wrote.
    pub fn ingest_log_file(&mut self, from: u64, chunk: &[u8]) -> (r: Vec<LogEntry>)
        ensures
            exists|now: Seq<char>|
                is_utc_stamp(now) && views(r@)
                    == #[trigger] line_records(complete_lines(chunk@, 0), now),
            final(self).offset == advanced(from, lines_end(chunk@, 0)),
    {
        let now = default_timestamp();
        self.ingest_log_file_at(from, chunk, now.as_str())
    }
}

/// The records of two runs of lines, one after the other, are the records of
/// the first run followed by those of the second.
pub proof fn lemma_line_records_of_two_runs(
    front: Seq<Seq<u8>>,
    back: Seq<Seq<u8>>,
    now: Seq<char>,
)
    ensures
        line_records(front + back, now) == line_records(front, now) + line_records(back, now),
    decreases back.len(),
{
    if back.len() == 0 {
        assert(front + back =~= front);
        assert(line_records(front, now) + line_records(back, now) =~= line_records(front, now));
    } else {
        lemma_line_records_of_two_runs(front, back.drop_last(), now);
        assert((front + back).drop_last() =~= front + back.drop_last());
        assert((front + back).last() == back.last());
        match decoded_record(back.last(), now) {
            Ok(record) => {
                assert((line_records(front, now) + line_records(back.drop_last(), now)).push(
                    record,
                ) =~= line_records(front, now) + line_records(back, now));
            },
            Err(_) => {},
        }
    }
}

/// A malformed line is dropped and the reading goes on: wherever such a line
/// stands among others, the records are those of the other lines, as if it
/// had not been there.
pub proof fn lemma_malformed_line_is_dropped(
    front: Seq<Seq<u8>>,
    bad: Seq<u8>,
    back: Seq<Seq<u8>>,
    now: Seq<char>,
)
    requires
        decoded_record(bad, now) is Err,
    ensures
        line_records(front.push(bad) + back, now) == line_records(front + back, now),
{
    lemma_line_records_of_two_runs(front.push(bad), back, now);
    lemma_line_records_of_two_runs(front, back, now);
    assert(front.push(bad).drop_last() =~= front);
}

/// A line end is where it is, whatever follows: up to the first line feed,
/// a text and any text that begins with it have the same line end.
proof fn lemma_line_end_of_prefix(bytes: Seq<u8>, n: int, from: int)
    requires
        0 <= from <= n <= bytes.len(),
        line_end(bytes.take(n), from) < n,
    ensures
        line_end(bytes, from) == line_end(bytes.take(n), from),
        from <= line_end(bytes, from),
    decreases n - from,
{
    let prefix = bytes.take(n);
    if from < n {
        assert(prefix[from] == bytes[from]);
        if bytes[from] != 10u8 {
            lemma_line_end_of_prefix(bytes, n, from + 1);
        }
    }
}

/// A line end moves with the text: in what is left of a text after `skip`
/// bytes, the line ends are where they were, less `skip`.
proof fn lemma_line_end_of_rest(bytes: Seq<u8>, skip: int, from: int)
    requires
        0 <= skip <= bytes.len(),
        0 <= from <= bytes.len() - skip,
    ensures
        line_end(bytes, skip + from) == skip + line_end(bytes.skip(skip), from),
        from <= line_end(bytes.skip(skip), from) <= bytes.len() - skip,
    decreases bytes.len() - skip - from,
{
    let rest = bytes.skip(skip);
    if from < rest.len() {
        assert(rest[from] == bytes[skip + from]);
        if rest[from] != 10u8 {
            lemma_line_end_of_rest(bytes, skip, from + 1);
        }
    }
}

/// The complete lines of a text that has grown are those that were complete
/// before, followed by those that begin where the last of them ended.
proof fn lemma_complete_lines_of_prefix(bytes: Seq<u8>, n: int, from: int)
    requires
        0 <= from <= n <= bytes.len(),
    ensures
        from <= lines_end(bytes.take(n), from) <= n,
        complete_lines(bytes, from) == complete_lines(bytes.take(n), from) + complete_lines(
            bytes,
            lines_end(bytes.take(n), from),
        ),
        lines_end(bytes, from) == lines_end(bytes, lines_end(bytes.take(n), from)),
    decreases n - from,
{
    let prefix = bytes.take(n);
    let end = line_end(prefix, from);
    lemma_line_end_of_rest(prefix, 0, from);
    assert(prefix.skip(0) =~= prefix);
    if end < n {
        lemma_line_end_of_prefix(bytes, n, from);
        lemma_complete_lines_of_prefix(bytes, n, end + 1);
        assert(prefix.subrange(from, end) =~= bytes.subrange(from, end));
        assert(seq![bytes.subrange(from, end)] + (complete_lines(prefix, end + 1) + complete_lines(
            bytes,
            lines_end(prefix, end + 1),
        )) =~= (seq![prefix.subrange(from, end)] + complete_lines(prefix, end + 1))
            + complete_lines(bytes, lines_end(prefix, end + 1)));
    } else {
        assert(Seq::<Seq<u8>>::empty() + complete_lines(bytes, from) =~= complete_lines(
            bytes,
            from,
        ));
    }
}

/// The complete lines of what is left of a text after `skip` bytes are the
/// complete lines of the text from the position `skip` on.
proof fn lemma_complete_lines_of_rest(bytes: Seq<u8>, skip: int, from: int)
    requires
        0 <= skip <= bytes.len(),
        0 <= from <= bytes.len() - skip,
    ensures
        complete_lines(bytes, skip + from) == complete_lines(bytes.skip(skip), from),
        lines_end(bytes, skip + from) == skip + lines_end(bytes.skip(skip), from),
    decreases bytes.len() - skip - from,
{
    let rest = bytes.skip(skip);
    let end = line_end(rest, from);
    lemma_line_end_of_rest(bytes, skip, from);
    if end < rest.len() {
        lemma_complete_lines_of_rest(bytes, skip, end + 1);
        assert(rest.subrange(from, end) =~= bytes.subrange(skip + from, skip + end));
    }
}

/// Tailing reads every line once: where a file that held `before` has grown
/// by `more`, the complete lines of the grown file are those that a reading
/// of `before` gave, followed by those that a reading of the grown file gives
/// from where the cursor stood after the first reading; and after both
/// readings the cursor stands where it stands after one reading of the whole.
pub proof fn lemma_tail_reads_every_line_once(before: Seq<u8>, more: Seq<u8>)
    ensures
        0 <= lines_end(before, 0) <= before.len(),
        complete_lines(before + more, 0) == complete_lines(before, 0) + complete_lines(
            (before + more).skip(lines_end(before, 0)),
            0,
        ),
        lines_end(before + more, 0) == lines_end(before, 0) + lines_end(
            (before + more).skip(lines_end(before, 0)),
            0,
        ),
{
    let grown = before + more;
    assert(grown.take(before.len() as int) =~= before);
    lemma_complete_lines_of_prefix(grown, before.len() as int, 0);
    lemma_complete_lines_of_rest(grown, lines_end(before, 0), 0);
}

} // verus!
