//! The one-time setup of a capture session, as a state machine.
//!
//! Setup is a chain of requests to outside services: capture access, a GPU
//! adapter, a GPU device, the list of capturable content, the capture stream.
//! The driver performs the action it is handed, waits for the outcome and
//! reports it as an event; the machine decides what comes next. A failed
//! step is fatal and is not retried. A shutdown request ends the session from
//! any stage and has the driver release what it holds.

use vstd::prelude::*;

verus! {

/// Why setup failed.
#[derive(Debug, Clone, Copy, PartialEq, Eq, Structural)]
pub enum SetupError {
    /// The user denied capture access.
    AccessDenied,
    /// The prompt for capture access was not answered in time.
    AccessTimedOut,
    /// No GPU adapter was found.
    NoAdapter,
    /// The search for a GPU adapter did not end in time.
    AdapterTimedOut,
    /// The adapter gave no device.
    NoDevice,
    /// The adapter did not answer the request for a device in time.
    DeviceTimedOut,
    /// The capturable content could not be listed.
    ContentUnavailable,
    /// Listing the capturable content did not end in time.
    ContentTimedOut,
    /// There is no display to capture.
    NoDisplay,
    /// The capture configuration did not accept the GPU device.
    ConfigRejected,
    /// The capture stream could not be opened.
    StreamRejected,
}

/// Where setup stands: what the driver is waiting for, or how it ended.
#[derive(Debug, Clone, Copy, PartialEq, Eq, Structural)]
pub enum SetupStage {
    /// Finding out whether capture access was granted before.
    CheckingAccess,
    /// Waiting for the user to grant capture access.
    RequestingAccess,
    /// Waiting for a GPU adapter.
    AcquiringAdapter,
    /// Waiting for the adapter's device.
    AcquiringDevice,
    /// Waiting for the list of capturable content.
    ListingContent,
    /// Configuring and opening the capture stream on the first display.
    OpeningStream,
    /// The stream is open and delivers frames.
    Streaming,
    /// The session was shut down.
    Stopped,
    /// Setup failed for good.
    Failed(SetupError),
}

/// What the driver reports back.
#[derive(Debug, Clone, Copy, PartialEq, Eq, Structural)]
pub enum SetupEvent {
    /// Capture access was granted before.
    AccessPresent,
    /// Capture access was not granted yet.
    AccessAbsent,
    /// The user granted capture access.
    AccessGranted,
    /// The user denied capture access.
    AccessDenied,
    /// A GPU adapter was found.
    AdapterFound,
    /// No GPU adapter was found.
    AdapterMissing,
    /// The adapter gave a device.
    DeviceReady,
    /// The adapter gave no device.
    DeviceUnavailable,
    /// The capturable content was listed and holds this many displays.
    ContentListed { displays: usize },
    /// The capturable content could not be listed.
    ContentUnavailable,
    /// The capture stream is open.
    StreamOpened,
    /// The capture configuration did not accept the GPU device.
    ConfigRejected,
    /// The capture stream could not be opened.
    StreamRejected,
    /// The request that the driver is waiting on did not end in time.
    TimedOut,
    /// The program asks the session to end.
    ShutdownRequested,
}

/// What the driver is to do next.
#[derive(Debug, Clone, Copy, PartialEq, Eq, Structural)]
pub enum SetupAction {
    /// Find out whether capture access was granted before.
    CheckAccess,
    /// Prompt the user for capture access.
    RequestAccess,
    /// Ask for a GPU adapter.
    RequestAdapter,
    /// Ask the adapter for its device.
    RequestDevice,
    /// Ask for the list of capturable content.
    ListContent,
    /// Configure a stream on the first display and open it.
    OpenStream,
    /// Stay suspended while the stream delivers frames.
    Park,
    /// Stop the stream, close the relay and release the GPU device.
    Release,
    /// Give up: setup failed with this error.
    Abort(SetupError),
    /// Nothing: the event changes nothing.
    Nothing,
}

impl SetupError {
    /// The message that the failure is reported with.
    pub open spec fn message_text(self) -> Seq<char> {
        match self {
            SetupError::AccessDenied => "Expected capture access"@,
            SetupError::AccessTimedOut => "Timed out waiting for capture access"@,
            SetupError::NoAdapter => "Expected wgpu adapter"@,
            SetupError::AdapterTimedOut => "Timed out waiting for wgpu adapter"@,
            SetupError::NoDevice => "Expected wgpu device"@,
            SetupError::DeviceTimedOut => "Timed out waiting for wgpu device"@,
            SetupError::ContentUnavailable => "Expected capturable content"@,
            SetupError::ContentTimedOut => "Timed out waiting for capturable content"@,
            SetupError::NoDisplay => "Expected at least one capturable display"@,
            SetupError::ConfigRejected => "Expected config with wgpu device"@,
            SetupError::StreamRejected => "Expected capture stream"@,
        }
    }

    /// The message that the failure is reported with.
    pub fn message(&self) -> (text: &'static str)
        ensures
            text@ == self.message_text(),
    {
        match self {
            SetupError::AccessDenied => "Expected capture access",
            SetupError::AccessTimedOut => "Timed out waiting for capture access",
            SetupError::NoAdapter => "Expected wgpu adapter",
            SetupError::AdapterTimedOut => "Timed out waiting for wgpu adapter",
            SetupError::NoDevice => "Expected wgpu device",
            SetupError::DeviceTimedOut => "Timed out waiting for wgpu device",
            SetupError::ContentUnavailable => "Expected capturable content",
            SetupError::ContentTimedOut => "Timed out waiting for capturable content",
            SetupError::NoDisplay => "Expected at least one capturable display",
            SetupError::ConfigRejected => "Expected config with wgpu device",
            SetupError::StreamRejected => "Expected capture stream",
        }
    }
}

/// The stage and action that a failure leads to.
pub open spec fn fail(error: SetupError) -> (SetupStage, SetupAction) {
    (SetupStage::Failed(error), SetupAction::Abort(error))
}

impl SetupStage {
    /// Whether setup has ended, in shutdown or in failure.
    pub open spec fn terminal(self) -> bool {
        self is Stopped || self is Failed
    }

    /// The stage that follows `self` on `event`, and what the driver is to
    /// do. An event that does not answer what the stage waits for changes
    /// nothing.
    pub open spec fn step(self, event: SetupEvent) -> (SetupStage, SetupAction) {
        if self.terminal() {
            (self, SetupAction::Nothing)
        } else if event is ShutdownRequested {
            (SetupStage::Stopped, SetupAction::Release)
        } else {
            match (self, event) {
                (SetupStage::CheckingAccess, SetupEvent::AccessPresent) => (
                    SetupStage::AcquiringAdapter,
                    SetupAction::RequestAdapter,
                ),
                (SetupStage::CheckingAccess, SetupEvent::AccessAbsent) => (
                    SetupStage::RequestingAccess,
                    SetupAction::RequestAccess,
                ),
                (SetupStage::RequestingAccess, SetupEvent::AccessGranted) => (
                    SetupStage::AcquiringAdapter,
                    SetupAction::RequestAdapter,
                ),
                (SetupStage::RequestingAccess, SetupEvent::AccessDenied) => fail(
                    SetupError::AccessDenied,
                ),
                (SetupStage::RequestingAccess, SetupEvent::TimedOut) => fail(
                    SetupError::AccessTimedOut,
                ),
                (SetupStage::AcquiringAdapter, SetupEvent::AdapterFound) => (
                    SetupStage::AcquiringDevice,
                    SetupAction::RequestDevice,
                ),
                (SetupStage::AcquiringAdapter, SetupEvent::AdapterMissing) => fail(
                    SetupError::NoAdapter,
                ),
                (SetupStage::AcquiringAdapter, SetupEvent::TimedOut) => fail(
                    SetupError::AdapterTimedOut,
                ),
                (SetupStage::AcquiringDevice, SetupEvent::DeviceReady) => (
                    SetupStage::ListingContent,
                    SetupAction::ListContent,
                ),
                (SetupStage::AcquiringDevice, SetupEvent::DeviceUnavailable) => fail(
                    SetupError::NoDevice,
                ),
                (SetupStage::AcquiringDevice, SetupEvent::TimedOut) => fail(
                    SetupError::DeviceTimedOut,
                ),
                (SetupStage::ListingContent, SetupEvent::ContentListed { displays }) => if displays
                    > 0 {
                    (SetupStage::OpeningStream, SetupAction::OpenStream)
                } else {
                    fail(SetupError::NoDisplay)
                },
                (SetupStage::ListingContent, SetupEvent::ContentUnavailable) => fail(
                    SetupError::ContentUnavailable,
                ),
                (SetupStage::ListingContent, SetupEvent::TimedOut) => fail(
                    SetupError::ContentTimedOut,
                ),
                (SetupStage::OpeningStream, SetupEvent::StreamOpened) => (
                    SetupStage::Streaming,
                    SetupAction::Park,
                ),
                (SetupStage::OpeningStream, SetupEvent::ConfigRejected) => fail(
                    SetupError::ConfigRejected,
                ),
                (SetupStage::OpeningStream, SetupEvent::StreamRejected) => fail(
                    SetupError::StreamRejected,
                ),
                _ => (self, SetupAction::Nothing),
            }
        }
    }

    /// The stage after the events `events`, reported in order.
    pub open spec fn run(self, events: Seq<SetupEvent>) -> SetupStage
        decreases events.len(),
    {
        if events.len() == 0 {
            self
        } else {
            self.run(events.drop_last()).step(events.last()).0
        }
    }

    /// How setup starts: with the check for capture access.
    pub fn begin() -> (start: (SetupStage, SetupAction))
        ensures
            start == (SetupStage::CheckingAccess, SetupAction::CheckAccess),
    {
        (SetupStage::CheckingAccess, SetupAction::CheckAccess)
    }

    /// Whether setup has ended, in shutdown or in failure.
    pub fn is_terminal(&self) -> (ended: bool)
        ensures
            ended == self.terminal(),
    {
        match self {
            SetupStage::Stopped => true,
            SetupStage::Failed(_) => true,
            _ => false,
        }
    }

    /// Takes `event` in: returns the stage that follows and the action that
    /// the driver is to perform.
    pub fn advance(self, event: SetupEvent) -> (next: (SetupStage, SetupAction))
        ensures
            next == self.step(event),
    {
        if self.is_terminal() {
            return (self, SetupAction::Nothing);
        }
        match (self, event) {
            (_, SetupEvent::ShutdownRequested) => (SetupStage::Stopped, SetupAction::Release),
            (SetupStage::CheckingAccess, SetupEvent::AccessPresent) => (
                SetupStage::AcquiringAdapter,
                SetupAction::RequestAdapter,
            ),
            (SetupStage::CheckingAccess, SetupEvent::AccessAbsent) => (
                SetupStage::RequestingAccess,
                SetupAction::RequestAccess,
            ),
            (SetupStage::RequestingAccess, SetupEvent::AccessGranted) => (
                SetupStage::AcquiringAdapter,
                SetupAction::RequestAdapter,
            ),
            (SetupStage::RequestingAccess, SetupEvent::AccessDenied) => failed(
                SetupError::AccessDenied,
            ),
            (SetupStage::RequestingAccess, SetupEvent::TimedOut) => failed(
                SetupError::AccessTimedOut,
            ),
            (SetupStage::AcquiringAdapter, SetupEvent::AdapterFound) => (
                SetupStage::AcquiringDevice,
                SetupAction::RequestDevice,
            ),
            (SetupStage::AcquiringAdapter, SetupEvent::AdapterMissing) => failed(
                SetupError::NoAdapter,
            ),
            (SetupStage::AcquiringAdapter, SetupEvent::TimedOut) => failed(
                SetupError::AdapterTimedOut,
            ),
            (SetupStage::AcquiringDevice, SetupEvent::DeviceReady) => (
                SetupStage::ListingContent,
                SetupAction::ListContent,
            ),
            (SetupStage::AcquiringDevice, SetupEvent::DeviceUnavailable) => failed(
                SetupError::NoDevice,
            ),
            (SetupStage::AcquiringDevice, SetupEvent::TimedOut) => failed(
                SetupError::DeviceTimedOut,
            ),
            (SetupStage::ListingContent, SetupEvent::ContentListed { displays }) => {
                if displays > 0 {
                    (SetupStage::OpeningStream, SetupAction::OpenStream)
                } else {
                    failed(SetupError::NoDisplay)
                }
            },
            (SetupStage::ListingContent, SetupEvent::ContentUnavailable) => failed(
                SetupError::ContentUnavailable,
            ),
            (SetupStage::ListingContent, SetupEvent::TimedOut) => failed(
                SetupError::ContentTimedOut,
            ),
            (SetupStage::OpeningStream, SetupEvent::StreamOpened) => (
                SetupStage::Streaming,
                SetupAction::Park,
            ),
            (SetupStage::OpeningStream, SetupEvent::ConfigRejected) => failed(
                SetupError::ConfigRejected,
            ),
            (SetupStage::OpeningStream, SetupEvent::StreamRejected) => failed(
                SetupError::StreamRejected,
            ),
            _ => (self, SetupAction::Nothing),
        }
    }
}

/// Ends setup in failure.
fn failed(error: SetupError) -> (next: (SetupStage, SetupAction))
    ensures
        next == fail(error),
{
    (SetupStage::Failed(error), SetupAction::Abort(error))
}

impl SetupEvent {
    /// Whether the event shows that capture access is there.
    pub open spec fn shows_access(self) -> bool {
        self is AccessPresent || self is AccessGranted
    }

    /// Whether the event is a content listing with at least one display.
    pub open spec fn lists_display(self) -> bool {
        self matches SetupEvent::ContentListed { displays } && displays > 0
    }
}

/// Whether `events` holds an event that shows capture access.
pub open spec fn saw_access(events: Seq<SetupEvent>) -> bool {
    exists|i: int| 0 <= i < events.len() && #[trigger] events[i].shows_access()
}

/// Whether `events` holds a content listing with at least one display.
pub open spec fn saw_display(events: Seq<SetupEvent>) -> bool {
    exists|i: int| 0 <= i < events.len() && #[trigger] events[i].lists_display()
}

/// What must have been reported before setup can stand at `stage`.
pub open spec fn earned(stage: SetupStage, events: Seq<SetupEvent>) -> bool {
    &&& stage.rank() >= 1 ==> saw_access(events)
    &&& stage.rank() >= 2 ==> events.contains(SetupEvent::AdapterFound)
    &&& stage.rank() >= 3 ==> events.contains(SetupEvent::DeviceReady)
    &&& stage.rank() >= 4 ==> saw_display(events)
    &&& stage.rank() >= 5 ==> events.contains(SetupEvent::StreamOpened)
    &&& !stage.terminal() ==> !events.contains(SetupEvent::ShutdownRequested)
}

impl SetupStage {
    /// How many of the five grants a live stage has behind it: access,
    /// adapter, device, a display, the open stream.
    pub open spec fn rank(self) -> int {
        match self {
            SetupStage::CheckingAccess => 0,
            SetupStage::RequestingAccess => 0,
            SetupStage::AcquiringAdapter => 1,
            SetupStage::AcquiringDevice => 2,
            SetupStage::ListingContent => 3,
            SetupStage::OpeningStream => 4,
            SetupStage::Streaming => 5,
            SetupStage::Stopped => 0,
            SetupStage::Failed(_) => 0,
        }
    }

    /// The action that the driver is handed for the event at `index` of
    /// `events`.
    pub open spec fn action_at(self, events: Seq<SetupEvent>, index: int) -> SetupAction
        recommends
            0 <= index < events.len(),
    {
        self.run(events.take(index)).step(events[index]).1
    }
}

/// A history can be cut anywhere: running all of it is running its first
/// `cut` events and then the rest.
pub proof fn run_in_two_parts(stage: SetupStage, events: Seq<SetupEvent>, cut: int)
    requires
        0 <= cut <= events.len(),
    ensures
        stage.run(events) == stage.run(events.take(cut)).run(events.skip(cut)),
    decreases events.len(),
{
    if cut == events.len() {
        assert(events.take(cut) == events);
        assert(events.skip(cut).len() == 0);
    } else {
        let front = events.drop_last();
        run_in_two_parts(stage, front, cut);
        assert(front.take(cut) == events.take(cut));
        assert(front.skip(cut) == events.skip(cut).drop_last());
        assert(events.skip(cut).last() == events.last());
    }
}

/// Setup that has ended stays as it ended: a failure is not retried and a
/// stopped session is not revived, whatever is reported afterwards, and the
/// driver is handed nothing more to do.
pub proof fn ended_setup_stays_ended(stage: SetupStage, events: Seq<SetupEvent>)
    requires
        stage.terminal(),
    ensures
        stage.run(events) == stage,
        forall|i: int| 0 <= i < events.len() ==> stage.action_at(events, i) == SetupAction::Nothing,
    decreases events.len(),
{
    if events.len() > 0 {
        ended_setup_stays_ended(stage, events.drop_last());
    }
    assert forall|i: int| 0 <= i < events.len() implies stage.action_at(events, i)
        == SetupAction::Nothing by {
        ended_setup_stays_ended(stage, events.take(i));
    }
}

/// The driver is told to abort exactly when a live setup fails, and with the
/// error that setup then stands at.
pub proof fn abort_marks_the_failure(stage: SetupStage, event: SetupEvent, error: SetupError)
    ensures
        stage.step(event).1 == SetupAction::Abort(error) <==> !stage.terminal() && stage.step(
            event,
        ).0 == SetupStage::Failed(error),
{
}

/// A shutdown request ends every live stage, and only a shutdown request has
/// the driver release what it holds.
pub proof fn shutdown_stops_live_setup(stage: SetupStage, event: SetupEvent)
    ensures
        !stage.terminal() ==> stage.step(SetupEvent::ShutdownRequested) == (
            SetupStage::Stopped,
            SetupAction::Release,
        ),
        stage.step(event).1 == SetupAction::Release <==> !stage.terminal()
            && event is ShutdownRequested,
{
}

/// Over any history the driver is told to release at most once.
pub proof fn release_is_asked_once(stage: SetupStage, events: Seq<SetupEvent>, i: int, j: int)
    requires
        0 <= i < j < events.len(),
        stage.action_at(events, i) == SetupAction::Release,
    ensures
        stage.action_at(events, j) != SetupAction::Release,
{
    let upto = events.take(j);
    run_in_two_parts(stage, upto, i + 1);
    assert(upto.take(i + 1) == events.take(i + 1));
    assert(events.take(i + 1).drop_last() == events.take(i));
    assert(events.take(i + 1).last() == events[i]);
    assert(stage.run(events.take(i + 1)) == SetupStage::Stopped);
    ended_setup_stays_ended(SetupStage::Stopped, upto.skip(i + 1));
}

/// Whatever was reported, setup stands only where the reports entitle it to
/// stand.
pub proof fn stage_is_earned(events: Seq<SetupEvent>)
    ensures
        earned(SetupStage::CheckingAccess.run(events), events),
    decreases events.len(),
{
    if events.len() > 0 {
        let front = events.drop_last();
        let before = SetupStage::CheckingAccess.run(front);
        let after = before.step(events.last()).0;
        stage_is_earned(front);
        let last = events.len() - 1;
        assert(events[last] == events.last());
        if events.last().shows_access() {
            assert(events[last].shows_access());
        }
        if events.last().lists_display() {
            assert(events[last].lists_display());
        }
        if saw_access(front) {
            let i = choose|i: int| 0 <= i < front.len() && #[trigger] front[i].shows_access();
            assert(events[i].shows_access());
        }
        if saw_display(front) {
            let i = choose|i: int| 0 <= i < front.len() && #[trigger] front[i].lists_display();
            assert(events[i].lists_display());
        }
        if front.contains(SetupEvent::AdapterFound) {
            let i = choose|i: int| 0 <= i < front.len() && front[i] == SetupEvent::AdapterFound;
            assert(events[i] == SetupEvent::AdapterFound);
        }
        if front.contains(SetupEvent::DeviceReady) {
            let i = choose|i: int| 0 <= i < front.len() && front[i] == SetupEvent::DeviceReady;
            assert(events[i] == SetupEvent::DeviceReady);
        }
        if front.contains(SetupEvent::StreamOpened) {
            let i = choose|i: int| 0 <= i < front.len() && front[i] == SetupEvent::StreamOpened;
            assert(events[i] == SetupEvent::StreamOpened);
        }
        if !after.terminal() {
            assert(!before.terminal());
            assert(!(events.last() is ShutdownRequested));
            assert(!events.contains(SetupEvent::ShutdownRequested)) by {
                if events.contains(SetupEvent::ShutdownRequested) {
                    let i = choose|i: int|
                        0 <= i < events.len() && events[i] == SetupEvent::ShutdownRequested;
                    assert(i < last);
                    assert(front[i] == SetupEvent::ShutdownRequested);
                    assert(front.contains(SetupEvent::ShutdownRequested));
                }
            }
        }
    }
}

/// The stream runs only after every grant: if setup stands at `Streaming`,
/// then access was present or granted, an adapter was found, its device was
/// ready, a display was listed, the stream was opened, and no shutdown was
/// requested.
pub proof fn streaming_takes_every_grant(events: Seq<SetupEvent>)
    requires
        SetupStage::CheckingAccess.run(events) is Streaming,
    ensures
        saw_access(events),
        events.contains(SetupEvent::AdapterFound),
        events.contains(SetupEvent::DeviceReady),
        saw_display(events),
        events.contains(SetupEvent::StreamOpened),
        !events.contains(SetupEvent::ShutdownRequested),
{
    stage_is_earned(events);
}

} // verus!
