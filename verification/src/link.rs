//! The serial link as its users share it: one access handle, held by at most
//! one task at a time, and the bytes that reach the wire while it is held.
//!
//! A write does not reach the device in one piece: the device takes some
//! bytes, the writing task is suspended, other tasks run. What keeps the
//! frames of different tasks apart on the wire is the handle alone. The model
//! here follows every such step, and proves that whatever the order of the
//! steps, the wire holds one task's bytes after another's, never a mixture.

use vstd::prelude::*;

verus! {

/// One write, as far as it got.
pub struct Write {
    /// The task that writes.
    pub task: u64,
    /// The bytes that it set out to write.
    pub frame: Seq<u8>,
    /// How many of them the device has taken.
    pub sent: nat,
    /// Whether the device reported a fault before it had taken them all.
    pub failed: bool,
}

/// Who holds the access handle.
pub enum Holder {
    Nobody,
    /// The task that drains what the device sends.
    Reader { task: u64 },
    /// A task in the middle of a write.
    Writer(Write),
}

/// The link at one moment.
pub struct LinkState {
    /// Every byte that has reached the wire, oldest first.
    pub wire: Seq<u8>,
    pub holder: Holder,
    /// The writes that have ended, in the order in which they ended.
    pub finished: Seq<Write>,
}

/// One step of one task on the link.
pub enum LinkEvent {
    /// The task asks for the handle, to write `frame`.
    BeginWrite { task: u64, frame: Seq<u8> },
    /// The device is ready to take up to `count` bytes from the task.
    Accept { task: u64, count: nat },
    /// The device reports a fault to the task.
    Fault { task: u64 },
    /// The task asks for the handle, to read.
    BeginRead { task: u64 },
    /// The task has read and gives the handle back.
    EndRead { task: u64 },
}

/// What a task learns from one step of its write.
#[derive(Clone, Copy, Debug, PartialEq, Eq, Structural)]
pub enum Progress {
    /// The task does not hold the handle for a write; nothing was written.
    Refused,
    /// Part of the frame is still to be written; the task keeps the handle.
    Pending,
    /// The whole frame is on the wire; the handle is free again.
    Done,
}

impl Holder {
    /// The task that holds the handle, if one does.
    pub open spec fn task(self) -> Option<u64> {
        match self {
            Holder::Nobody => None,
            Holder::Reader { task } => Some(task),
            Holder::Writer(write) => Some(write.task),
        }
    }

    /// Whether `task` holds the handle for a write.
    pub open spec fn writes_for(self, task: u64) -> bool {
        self matches Holder::Writer(write) && write.task == task
    }
}

impl Write {
    /// The bytes of this write that are on the wire.
    pub open spec fn written(self) -> Seq<u8> {
        self.frame.take(self.sent as int)
    }

    /// How many bytes the device takes when it is ready for `count`.
    pub open spec fn taken(self, count: nat) -> nat {
        if count <= self.frame.len() - self.sent {
            count
        } else {
            (self.frame.len() - self.sent) as nat
        }
    }

    /// The write after the device has taken up to `count` more bytes.
    pub open spec fn advanced(self, count: nat) -> Write {
        Write { sent: self.sent + self.taken(count), ..self }
    }

    /// A write is sound when it has sent no more than its frame, and all of
    /// it unless the device failed.
    pub open spec fn sound(self) -> bool {
        &&& self.sent <= self.frame.len()
        &&& !self.failed ==> self.sent == self.frame.len()
    }
}

/// The bytes that a run of ended writes has left on the wire: those of the
/// first, then those of the second, and so on.
pub open spec fn laid(writes: Seq<Write>) -> Seq<u8>
    decreases writes.len(),
{
    if writes.len() == 0 {
        Seq::empty()
    } else {
        laid(writes.drop_last()) + writes.last().written()
    }
}

/// The frames of a run of writes, one after the other and each of them whole.
pub open spec fn frames(writes: Seq<Write>) -> Seq<u8>
    decreases writes.len(),
{
    if writes.len() == 0 {
        Seq::empty()
    } else {
        frames(writes.drop_last()) + writes.last().frame
    }
}

impl LinkState {
    /// The link before anything has happened.
    pub open spec fn initial() -> LinkState {
        LinkState { wire: Seq::empty(), holder: Holder::Nobody, finished: Seq::empty() }
    }

    /// The link after one step. A step of a task that may not take it (the
    /// handle is held, or held by another task) changes nothing.
    pub open spec fn next(self, event: LinkEvent) -> LinkState {
        match event {
            LinkEvent::BeginWrite { task, frame } => match self.holder {
                Holder::Nobody => LinkState {
                    holder: Holder::Writer(Write { task, frame, sent: 0, failed: false }),
                    ..self
                },
                _ => self,
            },
            LinkEvent::Accept { task, count } => match self.holder {
                Holder::Writer(write) if write.task == task => {
                    let after = write.advanced(count);
                    let wire = self.wire + write.frame.subrange(
                        write.sent as int,
                        after.sent as int,
                    );
                    if after.sent == after.frame.len() {
                        LinkState {
                            wire,
                            holder: Holder::Nobody,
                            finished: self.finished.push(after),
                        }
                    } else {
                        LinkState { wire, holder: Holder::Writer(after), ..self }
                    }
                },
                _ => self,
            },
            LinkEvent::Fault { task } => match self.holder {
                Holder::Writer(write) if write.task == task => LinkState {
                    holder: Holder::Nobody,
                    finished: self.finished.push(Write { failed: true, ..write }),
                    ..self
                },
                _ => self,
            },
            LinkEvent::BeginRead { task } => match self.holder {
                Holder::Nobody => LinkState { holder: Holder::Reader { task }, ..self },
                _ => self,
            },
            LinkEvent::EndRead { task } => match self.holder {
                Holder::Reader { task: reader } if reader == task => LinkState {
                    holder: Holder::Nobody,
                    ..self
                },
                _ => self,
            },
        }
    }

    /// The link after a run of steps, from the first to the last.
    pub open spec fn run(self, events: Seq<LinkEvent>) -> LinkState
        decreases events.len(),
    {
        if events.len() == 0 {
            self
        } else {
            self.run(events.drop_last()).next(events.last())
        }
    }

    /// The bytes of the write that is under way, as far as they are on the wire.
    pub open spec fn in_flight(self) -> Seq<u8> {
        match self.holder {
            Holder::Writer(write) => write.written(),
            _ => Seq::empty(),
        }
    }

    /// What holds of the link at every moment: the wire is what the ended
    /// writes have left, one after the other, and then what the write under
    /// way has sent; every ended write is whole unless the device failed it.
    pub open spec fn coherent(self) -> bool {
        &&& forall|i: int| 0 <= i < self.finished.len() ==> (#[trigger] self.finished[i]).sound()
        &&& self.holder matches Holder::Writer(write) ==> write.sent <= write.frame.len()
            && !write.failed
        &&& self.wire == laid(self.finished) + self.in_flight()
    }

    /// What the task learns from a step in which the device is ready for
    /// `count` bytes.
    pub open spec fn progress(self, task: u64, count: nat) -> Progress {
        match self.holder {
            Holder::Writer(write) if write.task == task => {
                if write.advanced(count).sent == write.frame.len() {
                    Progress::Done
                } else {
                    Progress::Pending
                }
            },
            _ => Progress::Refused,
        }
    }
}

/// A run of writes with one more leaves what the run left, then the bytes of
/// the one more.
pub proof fn lemma_laid_push(writes: Seq<Write>, write: Write)
    ensures
        laid(writes.push(write)) == laid(writes) + write.written(),
{
    assert(writes.push(write).drop_last() =~= writes);
}

/// A run of writes that the device never failed has left their whole frames.
pub proof fn lemma_laid_whole(writes: Seq<Write>)
    requires
        forall|i: int| 0 <= i < writes.len() ==> (#[trigger] writes[i]).sound(),
        forall|i: int| 0 <= i < writes.len() ==> !(#[trigger] writes[i]).failed,
    ensures
        laid(writes) == frames(writes),
    decreases writes.len(),
{
    if writes.len() > 0 {
        lemma_laid_whole(writes.drop_last());
        let last = writes.last();
        assert(last.sound() && !last.failed);
        assert(last.written() =~= last.frame);
    }
}

/// No step breaks the link's coherence.
pub proof fn lemma_next_coherent(state: LinkState, event: LinkEvent)
    requires
        state.coherent(),
    ensures
        state.next(event).coherent(),
{
    let after = state.next(event);
    match event {
        LinkEvent::BeginWrite { task, frame } => {
            if state.holder is Nobody {
                assert(after.in_flight() =~= Seq::<u8>::empty());
                assert(state.in_flight() =~= Seq::<u8>::empty());
            }
        },
        LinkEvent::Accept { task, count } => {
            if let Holder::Writer(write) = state.holder {
                if write.task == task {
                    let moved = write.advanced(count);
                    let piece = write.frame.subrange(write.sent as int, moved.sent as int);
                    assert(write.written() + piece =~= moved.written());
                    assert((laid(state.finished) + write.written()) + piece =~= laid(
                        state.finished,
                    ) + moved.written());
                    if moved.sent == moved.frame.len() {
                        lemma_laid_push(state.finished, moved);
                        assert(after.in_flight() =~= Seq::<u8>::empty());
                        assert(after.wire =~= laid(after.finished) + after.in_flight());
                        assert forall|i: int| 0 <= i < after.finished.len() implies (
                        #[trigger] after.finished[i]).sound() by {
                            if i < state.finished.len() {
                                assert(after.finished[i] == state.finished[i]);
                            }
                        }
                    }
                }
            }
        },
        LinkEvent::Fault { task } => {
            if let Holder::Writer(write) = state.holder {
                if write.task == task {
                    let ended = Write { failed: true, ..write };
                    lemma_laid_push(state.finished, ended);
                    assert(ended.written() == write.written());
                    assert(after.in_flight() =~= Seq::<u8>::empty());
                    assert(after.wire =~= laid(after.finished) + after.in_flight());
                    assert forall|i: int| 0 <= i < after.finished.len() implies (
                    #[trigger] after.finished[i]).sound() by {
                        if i < state.finished.len() {
                            assert(after.finished[i] == state.finished[i]);
                        }
                    }
                }
            }
        },
        LinkEvent::BeginRead { task } => {
            if state.holder is Nobody {
                assert(after.in_flight() =~= state.in_flight());
            }
        },
        LinkEvent::EndRead { task } => {
            assert(after.in_flight() =~= state.in_flight());
        },
    }
}

/// Writes never interleave. Whatever steps the tasks take, and in whatever
/// order, the wire holds the bytes of the ended writes one after the other,
/// each write's bytes unbroken, and after them the bytes of the one write
/// that is under way.
pub proof fn lemma_writes_never_interleave(events: Seq<LinkEvent>)
    ensures
        LinkState::initial().run(events).coherent(),
    decreases events.len(),
{
    if events.len() == 0 {
        assert(LinkState::initial().wire =~= laid(LinkState::initial().finished)
            + LinkState::initial().in_flight());
    } else {
        lemma_writes_never_interleave(events.drop_last());
        lemma_next_coherent(LinkState::initial().run(events.drop_last()), events.last());
    }
}

/// While no write is under way and the device has failed none, the wire is a
/// run of whole frames.
pub proof fn lemma_wire_of_whole_frames(state: LinkState)
    requires
        state.coherent(),
        !(state.holder is Writer),
        forall|i: int| 0 <= i < state.finished.len() ==> !(#[trigger] state.finished[i]).failed,
    ensures
        state.wire == frames(state.finished),
{
    lemma_laid_whole(state.finished);
    assert(state.wire =~= laid(state.finished));
}

/// At most one task holds the handle, and only the step of the task that
/// holds it puts bytes on the wire.
pub proof fn lemma_only_the_holder_writes(state: LinkState, event: LinkEvent)
    ensures
        state.next(event).wire != state.wire ==> (event matches LinkEvent::Accept { task, .. }
            && state.holder matches Holder::Writer(write) && write.task == task),
        !(state.holder is Nobody) && (event is BeginWrite || event is BeginRead)
            ==> state.next(event) == state,
{
}

} // verus!
