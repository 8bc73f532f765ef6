//! The link reader: it takes what the device sends and throws it away, so
//! that the device never stalls on a full buffer. A read that fails is
//! logged, and the reader goes on.

use vstd::prelude::*;
use crate::channel::Channel;
use crate::link::LinkEvent;

verus! {

/// How many bytes the reader asks for in one read.
pub const READ_BUFFER_LEN: usize = 32;

/// How long the reader pauses between two reads, in milliseconds, to leave
/// the handle to the writers.
pub const READ_PAUSE_MILLIS: u64 = 10;

/// What one read came back with.
#[derive(Clone, Copy, Debug, PartialEq, Eq, Hash, Structural)]
pub enum ReadResult {
    /// The device sent this many bytes.
    Bytes(usize),
    /// The read failed.
    Failure,
}

/// What the reader writes to the log for one read.
#[derive(Clone, Copy, Debug, PartialEq, Eq, Hash, Structural)]
pub enum LogEntry {
    /// Bytes were read and thrown away: a note for debugging.
    Discarded { len: usize },
    /// The read failed: an error.
    ReadError,
}

impl ReadResult {
    /// The log entry for the read. No read can bring more than the buffer
    /// holds, so no entry speaks of more.
    pub open spec fn spec_entry(self) -> LogEntry {
        match self {
            ReadResult::Bytes(len) => LogEntry::Discarded {
                len: if len <= READ_BUFFER_LEN {
                    len
                } else {
                    READ_BUFFER_LEN
                },
            },
            ReadResult::Failure => LogEntry::ReadError,
        }
    }

    /// The log entry for the read.
    pub fn entry(&self) -> (entry: LogEntry)
        ensures
            entry == self.spec_entry(),
    {
        match self {
            ReadResult::Bytes(len) => LogEntry::Discarded {
                len: if *len <= READ_BUFFER_LEN {
                    *len
                } else {
                    READ_BUFFER_LEN
                },
            },
            ReadResult::Failure => LogEntry::ReadError,
        }
    }
}

/// The log that the reader writes for a run of reads: one entry for each
/// read, in their order.
pub open spec fn spec_log(reads: Seq<ReadResult>) -> Seq<LogEntry> {
    Seq::new(reads.len(), |i: int| reads[i].spec_entry())
}

/// How many reads of the run failed.
pub open spec fn failures(reads: Seq<ReadResult>) -> nat
    decreases reads.len(),
{
    if reads.len() == 0 {
        0
    } else {
        failures(reads.drop_last()) + if reads.last() is Failure {
            1nat
        } else {
            0nat
        }
    }
}

/// How many entries of the log are errors.
pub open spec fn errors(log: Seq<LogEntry>) -> nat
    decreases log.len(),
{
    if log.len() == 0 {
        0
    } else {
        errors(log.drop_last()) + if log.last() is ReadError {
            1nat
        } else {
            0nat
        }
    }
}

/// Runs the reader over a run of reads and gives the log that it writes. The
/// reader handles every read of the run, whatever came before it.
pub fn drain(reads: &[ReadResult]) -> (log: Vec<LogEntry>)
    ensures
        log@ == spec_log(reads@),
{
    let mut log: Vec<LogEntry> = Vec::new();
    let mut i: usize = 0;
    while i < reads.len()
        invariant
            i <= reads@.len(),
            log@ == spec_log(reads@.take(i as int)),
        decreases reads@.len() - i,
    {
        log.push(reads[i].entry());
        i = i + 1;
        assert(log@ =~= spec_log(reads@.take(i as int)));
    }
    assert(reads@.take(reads@.len() as int) =~= reads@);
    log
}

/// One turn of the reader on a channel whose handle it shares with the
/// writers: with the handle free it takes the handle, reads, gives the
/// handle back and logs; with the handle held it has to wait, and logs
/// nothing. Either way the wire is as it was.
pub fn turn(channel: &mut Channel, task: u64, read: ReadResult) -> (entry: Option<LogEntry>)
    requires
        old(channel).wf(),
    ensures
        final(channel).wf(),
        final(channel)@ == old(channel)@,
        old(channel)@.holder is Nobody ==> final(channel)@ == old(channel)@.next(
            LinkEvent::BeginRead { task },
        ).next(LinkEvent::EndRead { task }),
        entry == if old(channel)@.holder is Nobody {
            Some(read.spec_entry())
        } else {
            None
        },
{
    if channel.begin_read(task) {
        let released = channel.end_read(task);
        assert(released);
        Some(read.entry())
    } else {
        None
    }
}

/// Every failed read is logged as an error, and nothing else is: the log of
/// a run of reads has as many errors as the run has failures. After a run of
/// failures only, the log holds that many errors and nothing else.
pub proof fn lemma_every_failure_logged(reads: Seq<ReadResult>)
    ensures
        spec_log(reads).len() == reads.len(),
        errors(spec_log(reads)) == failures(reads),
        (forall|i: int| 0 <= i < reads.len() ==> reads[i] is Failure) ==> failures(reads)
            == reads.len(),
    decreases reads.len(),
{
    if reads.len() > 0 {
        lemma_every_failure_logged(reads.drop_last());
        assert(spec_log(reads).drop_last() =~= spec_log(reads.drop_last()));
    }
}

/// No failure stops the reader: after any run of reads, failed or not, the
/// reads that follow are handled as they would have been alone.
pub proof fn lemma_reader_goes_on(before: Seq<ReadResult>, after: Seq<ReadResult>)
    ensures
        spec_log(before + after) == spec_log(before) + spec_log(after),
{
    assert(spec_log(before + after) =~= spec_log(before) + spec_log(after));
}

} // verus!
