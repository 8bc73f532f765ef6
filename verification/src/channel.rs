//! A serial channel that records instead of transmitting: the link's steps,
//! carried out on a wire that is kept in memory.

use vstd::prelude::*;
use crate::link::Holder;
use crate::link::LinkEvent;
use crate::link::LinkState;
use crate::link::Progress;
use crate::link::Write;
use crate::text::append_bytes;

verus! {

/// What the handle is held for.
#[derive(Clone, Copy, Debug, PartialEq, Eq, Structural)]
enum Tenure {
    Free,
    Reading,
    Writing,
}

/// A channel with its access handle and the bytes on its wire.
pub struct Channel {
    wire: Vec<u8>,
    tenure: Tenure,
    /// The task that holds the handle, while it is held.
    task: u64,
    /// The frame of the write under way, while there is one.
    frame: Vec<u8>,
    /// How much of the frame is on the wire.
    sent: usize,
    finished: Ghost<Seq<Write>>,
}

impl View for Channel {
    type V = LinkState;

    closed spec fn view(&self) -> LinkState {
        LinkState {
            wire: self.wire@,
            holder: match self.tenure {
                Tenure::Free => Holder::Nobody,
                Tenure::Reading => Holder::Reader { task: self.task },
                Tenure::Writing => Holder::Writer(
                    Write {
                        task: self.task,
                        frame: self.frame@,
                        sent: self.sent as nat,
                        failed: false,
                    },
                ),
            },
            finished: self.finished@,
        }
    }
}

impl Channel {
    /// Whether the channel is in a state that steps of the link lead to.
    pub closed spec fn wf(&self) -> bool {
        self@.coherent()
    }

    /// A channel on which nothing has happened yet.
    pub fn new() -> (channel: Channel)
        ensures
            channel.wf(),
            channel@ == LinkState::initial(),
    {
        let channel = Channel {
            wire: Vec::new(),
            tenure: Tenure::Free,
            task: 0,
            frame: Vec::new(),
            sent: 0,
            finished: Ghost(Seq::empty()),
        };
        proof {
            crate::link::lemma_writes_never_interleave(Seq::empty());
            assert(channel@.wire =~= LinkState::initial().wire);
        }
        channel
    }

    /// Every byte that has reached the wire, oldest first.
    pub fn wire(&self) -> (wire: &Vec<u8>)
        ensures
            wire@ == self@.wire,
    {
        &self.wire
    }

    /// The task that holds the handle, if one does.
    pub fn holder(&self) -> (task: Option<u64>)
        ensures
            task == self@.holder.task(),
    {
        match self.tenure {
            Tenure::Free => None,
            _ => Some(self.task),
        }
    }

    /// Whether the handle is free.
    pub fn is_free(&self) -> (free: bool)
        ensures
            free == (self@.holder is Nobody),
    {
        match self.tenure {
            Tenure::Free => true,
            _ => false,
        }
    }

    /// `task` asks for the handle, to write `frame`. It gets the handle when
    /// nobody holds it; else nothing changes and the task has to ask again.
    pub fn begin_write(&mut self, task: u64, frame: Vec<u8>) -> (granted: bool)
        requires
            old(self).wf(),
        ensures
            final(self).wf(),
            final(self)@ == old(self)@.next(LinkEvent::BeginWrite { task, frame: frame@ }),
            granted == (old(self)@.holder is Nobody),
    {
        proof {
            crate::link::lemma_next_coherent(self@, LinkEvent::BeginWrite { task, frame: frame@ });
        }
        match self.tenure {
            Tenure::Free => {
                self.tenure = Tenure::Writing;
                self.task = task;
                self.frame = frame;
                self.sent = 0;
                true
            },
            _ => false,
        }
    }

    /// The device is ready to take up to `count` bytes from `task`. When the
    /// task holds the handle for a write, the next bytes of its frame go onto
    /// the wire, as many as are left and at most `count`; with the last byte
    /// the handle is given back.
    pub fn write_some(&mut self, task: u64, count: usize) -> (progress: Progress)
        requires
            old(self).wf(),
        ensures
            final(self).wf(),
            final(self)@ == old(self)@.next(LinkEvent::Accept { task, count: count as nat }),
            progress == old(self)@.progress(task, count as nat),
    {
        proof {
            crate::link::lemma_next_coherent(
                self@,
                LinkEvent::Accept { task, count: count as nat },
            );
        }
        match self.tenure {
            Tenure::Writing => {},
            _ => {
                return Progress::Refused;
            },
        }
        if self.task != task {
            return Progress::Refused;
        }
        let left: usize = self.frame.len() - self.sent;
        let taken: usize = if count <= left {
            count
        } else {
            left
        };
        let from: usize = self.sent;
        let to: usize = from + taken;
        let piece = slice_of(&self.frame, from, to);
        append_bytes(&mut self.wire, piece.as_slice());
        self.sent = to;
        if to == self.frame.len() {
            let ghost ended = Write {
                task,
                frame: self.frame@,
                sent: to as nat,
                failed: false,
            };
            self.finished = Ghost(self.finished@.push(ended));
            self.tenure = Tenure::Free;
            self.frame = Vec::new();
            self.sent = 0;
            Progress::Done
        } else {
            Progress::Pending
        }
    }

    /// The device reports a fault to `task`. When the task holds the handle
    /// for a write, the write ends as failed, with what it has sent so far on
    /// the wire, and the handle is given back.
    pub fn fault(&mut self, task: u64) -> (ended: bool)
        requires
            old(self).wf(),
        ensures
            final(self).wf(),
            final(self)@ == old(self)@.next(LinkEvent::Fault { task }),
            ended == old(self)@.holder.writes_for(task),
    {
        proof {
            crate::link::lemma_next_coherent(self@, LinkEvent::Fault { task });
        }
        match self.tenure {
            Tenure::Writing => {},
            _ => {
                return false;
            },
        }
        if self.task != task {
            return false;
        }
        let ghost ended = Write {
            task,
            frame: self.frame@,
            sent: self.sent as nat,
            failed: true,
        };
        self.finished = Ghost(self.finished@.push(ended));
        self.tenure = Tenure::Free;
        self.frame = Vec::new();
        self.sent = 0;
        true
    }

    /// `task` asks for the handle, to read. It gets the handle when nobody
    /// holds it.
    pub fn begin_read(&mut self, task: u64) -> (granted: bool)
        requires
            old(self).wf(),
        ensures
            final(self).wf(),
            final(self)@ == old(self)@.next(LinkEvent::BeginRead { task }),
            granted == (old(self)@.holder is Nobody),
    {
        proof {
            crate::link::lemma_next_coherent(self@, LinkEvent::BeginRead { task });
        }
        match self.tenure {
            Tenure::Free => {
                self.tenure = Tenure::Reading;
                self.task = task;
                true
            },
            _ => false,
        }
    }

    /// `task` has read and gives the handle back, if it holds it for reading.
    pub fn end_read(&mut self, task: u64) -> (released: bool)
        requires
            old(self).wf(),
        ensures
            final(self).wf(),
            final(self)@ == old(self)@.next(LinkEvent::EndRead { task }),
            released == (old(self)@.holder == Holder::Reader { task }),
    {
        proof {
            crate::link::lemma_next_coherent(self@, LinkEvent::EndRead { task });
        }
        match self.tenure {
            Tenure::Reading => {},
            _ => {
                return false;
            },
        }
        if self.task != task {
            return false;
        }
        self.tenure = Tenure::Free;
        true
    }
}

/// The bytes of `bytes` from `from` up to `to`.
fn slice_of(bytes: &Vec<u8>, from: usize, to: usize) -> (piece: Vec<u8>)
    requires
        from <= to <= bytes@.len(),
    ensures
        piece@ == bytes@.subrange(from as int, to as int),
{
    let mut piece: Vec<u8> = Vec::new();
    let mut i: usize = from;
    while i < to
        invariant
            from <= i <= to <= bytes@.len(),
            piece@ == bytes@.subrange(from as int, i as int),
        decreases to - i,
    {
        piece.push(bytes[i]);
        i = i + 1;
        assert(piece@ =~= bytes@.subrange(from as int, i as int));
    }
    piece
}

} // verus!
