//! The order of startup: the device is opened first, and nothing listens
//! before it is open.

use vstd::prelude::*;

verus! {

/// The rate of the serial link, agreed with the firmware.
pub const BAUD_RATE: u32 = 38400;

/// The port that the listener binds to where none is given.
pub const DEFAULT_PORT: u16 = 80;

/// The address that the listener binds to where none is given: every
/// interface.
pub open spec fn spec_default_hostname() -> Seq<char> {
    "0.0.0.0"@
}

/// The address that the listener binds to where none is given.
pub fn default_hostname() -> (hostname: &'static str)
    ensures
        hostname@ == spec_default_hostname(),
{
    "0.0.0.0"
}

/// What startup has to do next.
#[derive(Clone, Copy, Debug, PartialEq, Eq, Hash, Structural)]
pub enum Stage {
    /// Open the serial device.
    OpenDevice,
    /// Start the link reader on the open device.
    StartReader,
    /// Parse the address to listen on.
    ParseAddress,
    /// Bind the listener.
    Bind,
    /// Serve requests.
    Serve,
    /// Startup has failed; the process ends.
    Stopped,
}

/// What came of a stage's work.
#[derive(Clone, Copy, Debug, PartialEq, Eq, Hash, Structural)]
pub enum Outcome {
    DeviceOpened,
    DeviceRefused,
    ReaderStarted,
    AddressParsed,
    AddressInvalid,
    Bound,
    BindFailed,
}

impl Stage {
    /// The stage that follows when the work of this one came out as
    /// `outcome`. A failure stops startup, for good. An outcome that does
    /// not belong to the stage changes nothing.
    pub open spec fn spec_next(self, outcome: Outcome) -> Stage {
        match (self, outcome) {
            (Stage::OpenDevice, Outcome::DeviceOpened) => Stage::StartReader,
            (Stage::OpenDevice, Outcome::DeviceRefused) => Stage::Stopped,
            (Stage::StartReader, Outcome::ReaderStarted) => Stage::ParseAddress,
            (Stage::ParseAddress, Outcome::AddressParsed) => Stage::Bind,
            (Stage::ParseAddress, Outcome::AddressInvalid) => Stage::Stopped,
            (Stage::Bind, Outcome::Bound) => Stage::Serve,
            (Stage::Bind, Outcome::BindFailed) => Stage::Stopped,
            _ => self,
        }
    }

    /// The stage that startup is in after a run of outcomes.
    pub open spec fn spec_run(self, outcomes: Seq<Outcome>) -> Stage
        decreases outcomes.len(),
    {
        if outcomes.len() == 0 {
            self
        } else {
            self.spec_run(outcomes.drop_last()).spec_next(outcomes.last())
        }
    }

    /// Whether the listener is bound, or about to be, in this stage.
    pub open spec fn spec_listens(self) -> bool {
        self is Bind || self is Serve
    }

    /// The stage in which startup begins.
    pub fn first() -> (stage: Stage)
        ensures
            stage == Stage::OpenDevice,
    {
        Stage::OpenDevice
    }

    /// The stage that follows when the work of this one came out as
    /// `outcome`.
    pub fn next(self, outcome: Outcome) -> (stage: Stage)
        ensures
            stage == self.spec_next(outcome),
    {
        match (self, outcome) {
            (Stage::OpenDevice, Outcome::DeviceOpened) => Stage::StartReader,
            (Stage::OpenDevice, Outcome::DeviceRefused) => Stage::Stopped,
            (Stage::StartReader, Outcome::ReaderStarted) => Stage::ParseAddress,
            (Stage::ParseAddress, Outcome::AddressParsed) => Stage::Bind,
            (Stage::ParseAddress, Outcome::AddressInvalid) => Stage::Stopped,
            (Stage::Bind, Outcome::Bound) => Stage::Serve,
            (Stage::Bind, Outcome::BindFailed) => Stage::Stopped,
            _ => self,
        }
    }

    /// Whether the listener is bound, or about to be, in this stage.
    pub fn listens(self) -> (listens: bool)
        ensures
            listens == self.spec_listens(),
    {
        match self {
            Stage::Bind => true,
            Stage::Serve => true,
            _ => false,
        }
    }
}

/// Once stopped, startup stays stopped.
pub proof fn lemma_stopped_for_good(outcomes: Seq<Outcome>)
    ensures
        Stage::Stopped.spec_run(outcomes) == Stage::Stopped,
    decreases outcomes.len(),
{
    if outcomes.len() > 0 {
        lemma_stopped_for_good(outcomes.drop_last());
    }
}

/// A device that cannot be opened ends startup before anything listens:
/// when the first outcome is the device's refusal, startup is stopped after
/// it and after every outcome that follows, and at no moment is the listener
/// bound.
pub proof fn lemma_no_listener_without_device(outcomes: Seq<Outcome>)
    requires
        outcomes.len() > 0,
        outcomes[0] == Outcome::DeviceRefused,
    ensures
        Stage::OpenDevice.spec_run(outcomes) == Stage::Stopped,
        forall|k: int|
            0 <= k <= outcomes.len() ==> !(#[trigger] Stage::OpenDevice.spec_run(
                outcomes.take(k),
            )).spec_listens(),
    decreases outcomes.len(),
{
    lemma_refused_then_stopped(outcomes);
    assert forall|k: int| 0 <= k <= outcomes.len() implies !(#[trigger] Stage::OpenDevice.spec_run(
        outcomes.take(k),
    )).spec_listens() by {
        if k > 0 {
            lemma_refused_then_stopped(outcomes.take(k));
        }
    }
}

/// After the device's refusal startup is stopped, whatever follows.
proof fn lemma_refused_then_stopped(outcomes: Seq<Outcome>)
    requires
        outcomes.len() > 0,
        outcomes[0] == Outcome::DeviceRefused,
    ensures
        Stage::OpenDevice.spec_run(outcomes) == Stage::Stopped,
    decreases outcomes.len(),
{
    let front = outcomes.drop_last();
    if front.len() == 0 {
        assert(Stage::OpenDevice.spec_run(front) == Stage::OpenDevice);
    } else {
        lemma_refused_then_stopped(front);
    }
}

/// The listener is bound only after the device was opened: a run of
/// outcomes that leads to a listening stage holds the opening of the device.
pub proof fn lemma_listener_needs_device(outcomes: Seq<Outcome>)
    requires
        Stage::OpenDevice.spec_run(outcomes).spec_listens(),
    ensures
        exists|i: int| 0 <= i < outcomes.len() && outcomes[i] == Outcome::DeviceOpened,
{
    lemma_past_opening(outcomes);
}

/// A run of outcomes that leaves the first stage for any but the stopped
/// one holds the opening of the device.
proof fn lemma_past_opening(outcomes: Seq<Outcome>)
    ensures
        Stage::OpenDevice.spec_run(outcomes) != Stage::OpenDevice && Stage::OpenDevice.spec_run(
            outcomes,
        ) != Stage::Stopped ==> exists|i: int|
            0 <= i < outcomes.len() && outcomes[i] == Outcome::DeviceOpened,
    decreases outcomes.len(),
{
    if outcomes.len() > 0 {
        let front = outcomes.drop_last();
        lemma_past_opening(front);
        let before = Stage::OpenDevice.spec_run(front);
        let after = before.spec_next(outcomes.last());
        if after != Stage::OpenDevice && after != Stage::Stopped {
            if before == Stage::OpenDevice {
                assert(outcomes[outcomes.len() - 1] == Outcome::DeviceOpened);
            } else {
                assert(before != Stage::Stopped);
                let i = choose|i: int| 0 <= i < front.len() && front[i] == Outcome::DeviceOpened;
                assert(outcomes[i] == Outcome::DeviceOpened);
            }
        }
    }
}

} // verus!
