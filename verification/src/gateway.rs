//! The HTTP gateway's decisions: which request leads to which command, and
//! what answers the others.

use vstd::prelude::*;
use crate::channel::Channel;
use crate::command::Command;
use crate::command::Terminator;
use crate::dispatcher::dispatch;
use crate::dispatcher::spec_dispatch;
use crate::dispatcher::spec_dispatch_status;
use crate::dispatcher::Device;
use crate::dispatcher::Status;
use crate::link::LinkState;
use crate::text::text_equal;

verus! {

/// What the gateway does with a request.
#[derive(Clone, Copy, Debug, PartialEq, Eq, Hash, Structural)]
pub enum Resolution {
    /// The request triggers the command.
    Dispatch(Command),
    /// The path is no route of the table.
    NotFound,
    /// The path is a route, but the method is not the one that triggers it.
    MethodNotAllowed,
}

/// The one method that triggers a command.
pub open spec fn spec_trigger_method() -> Seq<char> {
    "POST"@
}

/// The one method that triggers a command.
pub fn trigger_method() -> (method: &'static str)
    ensures
        method@ == spec_trigger_method(),
{
    "POST"
}

/// What the gateway does with a request for `path` by `method`.
pub open spec fn spec_resolve(method: Seq<char>, path: Seq<char>) -> Resolution {
    match Command::spec_from_route(path) {
        None => Resolution::NotFound,
        Some(command) => if method == spec_trigger_method() {
            Resolution::Dispatch(command)
        } else {
            Resolution::MethodNotAllowed
        },
    }
}

/// Decides what to do with a request for `path` by `method`. The path is
/// compared as it stands, with its leading slash and without a query.
pub fn resolve(method: &str, path: &str) -> (resolution: Resolution)
    ensures
        resolution == spec_resolve(method@, path@),
{
    match Command::from_route(path) {
        None => Resolution::NotFound,
        Some(command) => if text_equal(method, trigger_method()) {
            Resolution::Dispatch(command)
        } else {
            Resolution::MethodNotAllowed
        },
    }
}

/// The link after a request has been served.
pub open spec fn spec_serve(
    state: LinkState,
    task: u64,
    method: Seq<char>,
    path: Seq<char>,
    terminator: Terminator,
    device: Device,
) -> LinkState {
    match spec_resolve(method, path) {
        Resolution::Dispatch(command) => spec_dispatch(
            state,
            task,
            command.spec_frame(terminator),
            device,
        ),
        _ => state,
    }
}

/// The status that a request is answered with; none while it has to wait
/// for the handle.
pub open spec fn spec_serve_status(
    state: LinkState,
    method: Seq<char>,
    path: Seq<char>,
    terminator: Terminator,
    device: Device,
) -> Option<Status> {
    match spec_resolve(method, path) {
        Resolution::Dispatch(command) => spec_dispatch_status(
            state,
            command.spec_frame(terminator),
            device,
        ),
        Resolution::NotFound => Some(Status::NotFound),
        Resolution::MethodNotAllowed => Some(Status::MethodNotAllowed),
    }
}

/// Serves one request on a recording channel: a request that triggers a
/// command is dispatched, any other is answered without a write.
pub fn serve(
    channel: &mut Channel,
    task: u64,
    method: &str,
    path: &str,
    terminator: Terminator,
    device: Device,
) -> (status: Option<Status>)
    requires
        old(channel).wf(),
    ensures
        final(channel).wf(),
        final(channel)@ == spec_serve(old(channel)@, task, method@, path@, terminator, device),
        status == spec_serve_status(old(channel)@, method@, path@, terminator, device),
{
    match resolve(method, path) {
        Resolution::Dispatch(command) => dispatch(channel, task, command, terminator, device),
        Resolution::NotFound => Some(Status::NotFound),
        Resolution::MethodNotAllowed => Some(Status::MethodNotAllowed),
    }
}

/// Every route of the table leads to its own command, and a request for it
/// by the triggering method is dispatched.
pub proof fn lemma_every_route_resolves(command: Command)
    ensures
        spec_resolve(spec_trigger_method(), command.spec_route()) == Resolution::Dispatch(command),
{
    crate::command::lemma_route_total(command);
}

/// A path that is no route of the table is answered as not found, whatever
/// the method, and nothing is written for it.
pub proof fn lemma_unmapped_path_writes_nothing(
    state: LinkState,
    task: u64,
    method: Seq<char>,
    path: Seq<char>,
    terminator: Terminator,
    device: Device,
)
    requires
        forall|command: Command| #[trigger] command.spec_route() != path,
    ensures
        spec_resolve(method, path) == Resolution::NotFound,
        spec_serve(state, task, method, path, terminator, device) == state,
        spec_serve_status(state, method, path, terminator, device) == Some(Status::NotFound),
{
}

/// On every route, with the handle free, the answer is success when the
/// device takes the whole frame and a server error when it does not, and in
/// both cases what the device took of the command's frame is on the wire.
pub proof fn lemma_route_status(
    state: LinkState,
    task: u64,
    command: Command,
    terminator: Terminator,
    device: Device,
)
    requires
        state.holder is Nobody,
    ensures
        spec_serve_status(
            state,
            spec_trigger_method(),
            command.spec_route(),
            terminator,
            device,
        ) == Some(
            Status::spec_of_write(
                device.takes(command.spec_frame(terminator).len())
                    == command.spec_frame(terminator).len(),
            ),
        ),
        spec_serve(
            state,
            task,
            spec_trigger_method(),
            command.spec_route(),
            terminator,
            device,
        ).wire == state.wire + command.spec_frame(terminator).take(
            device.takes(command.spec_frame(terminator).len()) as int,
        ),
{
    lemma_every_route_resolves(command);
}

} // verus!
