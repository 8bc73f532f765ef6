//! The command dispatcher: one command, one write, one status.

use vstd::prelude::*;
use crate::channel::Channel;
use crate::command::Command;
use crate::command::Terminator;
use crate::link::Holder;
use crate::link::LinkEvent;
use crate::link::LinkState;
use crate::link::Progress;
use crate::link::Write;

verus! {

/// The status that a request is answered with.
#[derive(Clone, Copy, Debug, PartialEq, Eq, Hash, Structural)]
pub enum Status {
    Success,
    NotFound,
    MethodNotAllowed,
    ServerError,
}

impl Status {
    /// The status as a number.
    pub open spec fn spec_code(self) -> u16 {
        match self {
            Status::Success => 200,
            Status::NotFound => 404,
            Status::MethodNotAllowed => 405,
            Status::ServerError => 500,
        }
    }

    /// The status as a number.
    pub fn code(&self) -> (code: u16)
        ensures
            code == self.spec_code(),
    {
        match self {
            Status::Success => 200,
            Status::NotFound => 404,
            Status::MethodNotAllowed => 405,
            Status::ServerError => 500,
        }
    }

    /// The status that answers a command whose write has ended: success when
    /// the whole frame was written, a server error when the write failed.
    pub open spec fn spec_of_write(written: bool) -> Status {
        if written {
            Status::Success
        } else {
            Status::ServerError
        }
    }

    /// The status that answers a command whose write has ended.
    pub fn of_write(written: bool) -> (status: Status)
        ensures
            status == Status::spec_of_write(written),
    {
        if written {
            Status::Success
        } else {
            Status::ServerError
        }
    }
}

/// How the device behaves during one write.
#[derive(Clone, Copy, Debug, PartialEq, Eq, Hash, Structural)]
pub enum Device {
    /// It takes every byte.
    Accepts,
    /// It takes `after` bytes and then reports a fault. A write of no more
    /// than `after` bytes is over before the fault and succeeds.
    Faults { after: usize },
}

impl Device {
    /// How many bytes of a frame of `len` bytes the device takes.
    pub open spec fn takes(self, len: nat) -> nat {
        match self {
            Device::Accepts => len,
            Device::Faults { after } => if after <= len {
                after as nat
            } else {
                len
            },
        }
    }
}

/// The write that a dispatch of `frame` by `task` ends as.
pub open spec fn dispatched(task: u64, frame: Seq<u8>, device: Device) -> Write {
    Write {
        task,
        frame,
        sent: device.takes(frame.len()),
        failed: device.takes(frame.len()) < frame.len(),
    }
}

/// The link after a dispatch. With the handle free, the write runs from
/// beginning to end: what the device takes of the frame is on the wire, the
/// write has ended and the handle is free again. With the handle held,
/// nothing happens.
pub open spec fn spec_dispatch(
    state: LinkState,
    task: u64,
    frame: Seq<u8>,
    device: Device,
) -> LinkState {
    if state.holder is Nobody {
        let write = dispatched(task, frame, device);
        LinkState {
            wire: state.wire + write.written(),
            holder: Holder::Nobody,
            finished: state.finished.push(write),
        }
    } else {
        state
    }
}

/// The status of a dispatch: none while the handle is held and the request
/// has to wait, else success exactly when the device took the whole frame.
pub open spec fn spec_dispatch_status(
    state: LinkState,
    frame: Seq<u8>,
    device: Device,
) -> Option<Status> {
    if state.holder is Nobody {
        Some(Status::spec_of_write(device.takes(frame.len()) == frame.len()))
    } else {
        None
    }
}

/// The steps on the link that a dispatch is made of: the task takes the
/// handle, the device takes what it takes, and where that is not the whole
/// frame it reports the fault.
pub open spec fn dispatch_steps(task: u64, frame: Seq<u8>, device: Device) -> Seq<LinkEvent> {
    let begin = LinkEvent::BeginWrite { task, frame };
    let accept = LinkEvent::Accept { task, count: device.takes(frame.len()) };
    if device.takes(frame.len()) == frame.len() {
        seq![begin, accept]
    } else {
        seq![begin, accept, LinkEvent::Fault { task }]
    }
}

/// A dispatch is a run of steps on the link, and so keeps the link coherent.
pub proof fn lemma_dispatch_is_steps(state: LinkState, task: u64, frame: Seq<u8>, device: Device)
    requires
        state.holder is Nobody,
    ensures
        spec_dispatch(state, task, frame, device) == state.run(
            dispatch_steps(task, frame, device),
        ),
        state.coherent() ==> spec_dispatch(state, task, frame, device).coherent(),
{
    let steps = dispatch_steps(task, frame, device);
    let begin = LinkEvent::BeginWrite { task, frame };
    let taken = device.takes(frame.len());
    let accept = LinkEvent::Accept { task, count: taken };
    let s1 = state.next(begin);
    let s2 = s1.next(accept);
    let write = dispatched(task, frame, device);
    assert(frame.subrange(0, taken as int) =~= write.written());
    assert(state.run(seq![begin]) == s1) by {
        assert(seq![begin].drop_last() =~= Seq::<LinkEvent>::empty());
        assert(state.run(Seq::<LinkEvent>::empty()) == state);
    }
    assert(state.run(seq![begin, accept]) == s2) by {
        assert(seq![begin, accept].drop_last() =~= seq![begin]);
    }
    if taken == frame.len() {
        assert(s2 == spec_dispatch(state, task, frame, device));
    } else {
        let fault = LinkEvent::Fault { task };
        let s3 = s2.next(fault);
        assert(state.run(seq![begin, accept, fault]) == s3) by {
            assert(seq![begin, accept, fault].drop_last() =~= seq![begin, accept]);
        }
        assert(s3 == spec_dispatch(state, task, frame, device));
    }
    if state.coherent() {
        crate::link::lemma_next_coherent(state, begin);
        crate::link::lemma_next_coherent(s1, accept);
        crate::link::lemma_next_coherent(s2, LinkEvent::Fault { task });
    }
}

/// A failed write is the failure of its own request and of no other: the
/// status of a dispatch that follows another depends on its own frame and on
/// what the device does during its own write, whatever became of the first.
pub proof fn lemma_failure_stays_local(
    state: LinkState,
    first_task: u64,
    first_frame: Seq<u8>,
    first_device: Device,
    frame: Seq<u8>,
    device: Device,
)
    requires
        state.holder is Nobody,
    ensures
        spec_dispatch_status(
            spec_dispatch(state, first_task, first_frame, first_device),
            frame,
            device,
        ) == Some(Status::spec_of_write(device.takes(frame.len()) == frame.len())),
{
}

/// Carries out one command for `task`: frames it, takes the handle, writes
/// the frame to the device and gives the handle back. Answers with success
/// when the whole frame was written, with a server error when the device
/// failed the write, and with nothing, and without writing, while the
/// handle is held and the task has to wait.
pub fn dispatch(
    channel: &mut Channel,
    task: u64,
    command: Command,
    terminator: Terminator,
    device: Device,
) -> (status: Option<Status>)
    requires
        old(channel).wf(),
    ensures
        final(channel).wf(),
        final(channel)@ == spec_dispatch(
            old(channel)@,
            task,
            command.spec_frame(terminator),
            device,
        ),
        status == spec_dispatch_status(old(channel)@, command.spec_frame(terminator), device),
{
    if !channel.is_free() {
        return None;
    }
    let frame = command.frame(terminator);
    let len: usize = frame.len();
    let count: usize = match device {
        Device::Accepts => len,
        Device::Faults { after } => if after <= len {
            after
        } else {
            len
        },
    };
    proof {
        lemma_dispatch_is_steps(channel@, task, frame@, device);
        let begin = LinkEvent::BeginWrite { task, frame: frame@ };
        let accept = LinkEvent::Accept { task, count: count as nat };
        if count == len {
            assert(seq![begin, accept].drop_last() =~= seq![begin]);
            assert(seq![begin].drop_last() =~= Seq::<LinkEvent>::empty());
        } else {
            let fault = LinkEvent::Fault { task };
            assert(seq![begin, accept, fault].drop_last() =~= seq![begin, accept]);
            assert(seq![begin, accept].drop_last() =~= seq![begin]);
            assert(seq![begin].drop_last() =~= Seq::<LinkEvent>::empty());
        }
    }
    let granted = channel.begin_write(task, frame);
    assert(granted);
    let progress = channel.write_some(task, count);
    match progress {
        Progress::Done => Some(Status::of_write(true)),
        _ => {
            let ended = channel.fault(task);
            assert(ended);
            Some(Status::of_write(false))
        },
    }
}

} // verus!
