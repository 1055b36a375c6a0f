//! One device's session: its states, what each event does to it, and how
//! failures are told apart.

use crate::commands::{
    directives_for, directives_view, handle_set_image, spec_blank_all, spec_handle_set_image,
    Directive, ImageCommand, SetImageEvent,
};
use crate::pipeline::{ImageError, NativeBitmap, Raster};
use crate::registry::DeviceProfile;
use vstd::prelude::*;

verus! {

/// Backlight level set while a device is brought up, in percent.
pub const INITIAL_BRIGHTNESS: u8 = 50;

/// What went wrong while talking to a device.
#[derive(Debug, Clone, Copy, PartialEq, Eq, Structural)]
pub enum DeviceError {
    WatcherAlreadyInitialized,
    DeviceNotFound,
    InvalidDevice,
    /// The transport failed: an I/O error, or the device is gone.
    Transport,
    /// An image could not be decoded or encoded.
    Image,
    Poisoned,
    NoScreen,
    InvalidKeyIndex,
    UnrecognizedPid,
    UnsupportedOperation,
    /// The device sent a report that does not decode.
    BadData,
}

#[derive(Debug, Clone, Copy, PartialEq, Eq, Structural)]
pub enum Severity {
    /// Logged; the loop that saw it goes on.
    Recoverable,
    /// The session is deregistered and closes.
    Fatal,
}

pub open spec fn spec_classify_error(err: DeviceError) -> Severity {
    match err {
        DeviceError::Image | DeviceError::BadData => Severity::Recoverable,
        _ => Severity::Fatal,
    }
}

/// Tells a failure of a single image or report from one that ends the
/// session. Both loops of a session go by this.
pub fn classify_error(err: DeviceError) -> (severity: Severity)
    ensures
        severity == spec_classify_error(err),
{
    match err {
        DeviceError::Image | DeviceError::BadData => Severity::Recoverable,
        _ => Severity::Fatal,
    }
}

/// Whether the session goes on after `err`: `false` means the failure is
/// fatal and the session is to be cleaned up.
pub fn handle_error(err: DeviceError) -> (go_on: bool)
    ensures
        go_on == (spec_classify_error(err) is Recoverable),
{
    match classify_error(err) {
        Severity::Recoverable => true,
        Severity::Fatal => false,
    }
}

#[derive(Debug, Clone, Copy, PartialEq, Eq, Structural)]
pub enum SessionState {
    Connecting,
    Ready,
    ShuttingDown,
    Closed,
    Faulted,
}

#[derive(Debug, Clone, Copy, PartialEq, Eq, Structural)]
pub enum SessionEvent {
    /// The device was opened and took brightness, clear and flush.
    Initialised,
    /// A step of either loop, or of bringing the device up, failed.
    Failed(DeviceError),
    /// A flush failed: what was written may never show.
    FlushFailed,
    /// A shutdown command arrived in the inbox.
    ShutdownRequested,
    /// The cancellation signal fired.
    Cancelled,
    /// The transport handle was released.
    Released,
}

#[derive(Debug, Clone, Copy, PartialEq, Eq, Structural)]
pub enum SessionAction {
    Nothing,
    /// Announce the device and start both loops.
    Announce,
    /// Log the failure and go on.
    Continue,
    /// Report the device as disconnected and release what it held.
    Retire,
    /// Send the device its shutdown directive, then release the handle.
    PowerDown,
}

impl SessionState {
    /// No event leads out of these states.
    pub open spec fn is_terminal(&self) -> bool {
        *self is Closed || *self is Faulted
    }

    pub open spec fn spec_step(&self, event: SessionEvent) -> (SessionState, SessionAction) {
        match (*self, event) {
            (SessionState::Connecting, SessionEvent::Initialised) => (
                SessionState::Ready,
                SessionAction::Announce,
            ),
            (SessionState::Connecting, SessionEvent::Failed(_)) => (
                SessionState::Faulted,
                SessionAction::Retire,
            ),
            (SessionState::Connecting, SessionEvent::FlushFailed) => (
                SessionState::Faulted,
                SessionAction::Retire,
            ),
            (SessionState::Ready, SessionEvent::FlushFailed) => (
                SessionState::Faulted,
                SessionAction::Retire,
            ),
            (SessionState::ShuttingDown, SessionEvent::FlushFailed) => (
                SessionState::ShuttingDown,
                SessionAction::Continue,
            ),
            (SessionState::Ready, SessionEvent::Failed(err)) => if spec_classify_error(err)
                is Recoverable {
                (SessionState::Ready, SessionAction::Continue)
            } else {
                (SessionState::Faulted, SessionAction::Retire)
            },
            (SessionState::Ready, SessionEvent::ShutdownRequested) => (
                SessionState::ShuttingDown,
                SessionAction::PowerDown,
            ),
            (SessionState::Ready, SessionEvent::Cancelled) => (
                SessionState::ShuttingDown,
                SessionAction::PowerDown,
            ),
            (SessionState::ShuttingDown, SessionEvent::Failed(_)) => (
                SessionState::ShuttingDown,
                SessionAction::Continue,
            ),
            (SessionState::ShuttingDown, SessionEvent::Released) => (
                SessionState::Closed,
                SessionAction::Nothing,
            ),
            (state, _) => (state, SessionAction::Nothing),
        }
    }

    /// The state after an event, and what the session has to do. While
    /// connecting, any failure faults the session; once ready, only a fatal
    /// one does, and a failed flush always is fatal. A shutdown request or a
    /// cancellation makes a ready session
    /// shut down; a failure while shutting down is logged and no more.
    /// Events that a state has no use for leave it as it is.
    pub fn step(self, event: SessionEvent) -> (next: (SessionState, SessionAction))
        ensures
            next == self.spec_step(event),
    {
        match (self, event) {
            (SessionState::Connecting, SessionEvent::Initialised) => (
                SessionState::Ready,
                SessionAction::Announce,
            ),
            (SessionState::Connecting, SessionEvent::Failed(_)) => (
                SessionState::Faulted,
                SessionAction::Retire,
            ),
            (SessionState::Connecting, SessionEvent::FlushFailed) => (
                SessionState::Faulted,
                SessionAction::Retire,
            ),
            (SessionState::Ready, SessionEvent::FlushFailed) => (
                SessionState::Faulted,
                SessionAction::Retire,
            ),
            (SessionState::ShuttingDown, SessionEvent::FlushFailed) => (
                SessionState::ShuttingDown,
                SessionAction::Continue,
            ),
            (SessionState::Ready, SessionEvent::Failed(err)) => {
                if handle_error(err) {
                    (SessionState::Ready, SessionAction::Continue)
                } else {
                    (SessionState::Faulted, SessionAction::Retire)
                }
            },
            (SessionState::Ready, SessionEvent::ShutdownRequested) => (
                SessionState::ShuttingDown,
                SessionAction::PowerDown,
            ),
            (SessionState::Ready, SessionEvent::Cancelled) => (
                SessionState::ShuttingDown,
                SessionAction::PowerDown,
            ),
            (SessionState::ShuttingDown, SessionEvent::Failed(_)) => (
                SessionState::ShuttingDown,
                SessionAction::Continue,
            ),
            (SessionState::ShuttingDown, SessionEvent::Released) => (
                SessionState::Closed,
                SessionAction::Nothing,
            ),
            (state, _) => (state, SessionAction::Nothing),
        }
    }

    /// The state after a run of events.
    pub open spec fn run(&self, events: Seq<SessionEvent>) -> SessionState
        decreases events.len(),
    {
        if events.len() == 0 {
            *self
        } else {
            self.spec_step(events[0]).0.run(events.skip(1))
        }
    }

    /// How often a run of events has the session report its device as
    /// disconnected.
    pub open spec fn retirements(&self, events: Seq<SessionEvent>) -> nat
        decreases events.len(),
    {
        if events.len() == 0 {
            0
        } else {
            let (next, action) = self.spec_step(events[0]);
            (if action is Retire {
                1nat
            } else {
                0nat
            }) + next.retirements(events.skip(1))
        }
    }

    /// A session faults only while connecting or ready, closes only out of
    /// shutting down, and begins to shut down only when ready.
    pub proof fn lemma_step_origins(&self, event: SessionEvent)
        ensures
            self.spec_step(event).0 is Faulted ==> *self is Connecting || *self is Ready
                || *self is Faulted,
            self.spec_step(event).0 is Closed ==> *self is ShuttingDown || *self is Closed,
            self.spec_step(event).0 is ShuttingDown ==> *self is Ready || *self is ShuttingDown,
            self.spec_step(event).0 is Ready ==> *self is Connecting || *self is Ready,
            self.spec_step(event).0 is Connecting ==> *self is Connecting,
            self.spec_step(event).1 is Retire <==> !(*self is Faulted) && self.spec_step(event).0
                is Faulted,
    {
    }

    /// A closed or faulted session stays as it is and does nothing more,
    /// whatever arrives.
    pub proof fn lemma_terminal_is_final(&self, events: Seq<SessionEvent>)
        requires
            self.is_terminal(),
        ensures
            self.run(events) == *self,
            self.retirements(events) == 0,
        decreases events.len(),
    {
        if events.len() > 0 {
            self.lemma_terminal_is_final(events.skip(1));
        }
    }

    /// Whatever happens to a session, it reports its device as disconnected
    /// at most once, and exactly once if it ends up faulted after starting
    /// in another state.
    pub proof fn lemma_retires_once(&self, events: Seq<SessionEvent>)
        ensures
            self.retirements(events) <= 1,
            !(*self is Faulted) && self.run(events) is Faulted ==> self.retirements(events) == 1,
            self.retirements(events) == 1 ==> self.run(events) is Faulted,
        decreases events.len(),
    {
        if events.len() > 0 {
            let (next, action) = self.spec_step(events[0]);
            if next.is_terminal() {
                next.lemma_terminal_is_final(events.skip(1));
            } else {
                next.lemma_retires_once(events.skip(1));
            }
        }
    }
}

/// A command in a session's inbox.
#[derive(Debug, Clone)]
pub enum DeviceCommand {
    SetImage(SetImageEvent),
    SetBrightness(u8),
    Shutdown,
}

/// What a session does with a command. `D` is the list of directives.
#[derive(Debug, Clone)]
pub enum CommandOutcome<D> {
    /// Send these directives, in order.
    Send(D),
    /// The image was refused; log it, leave the device as it is and go on.
    Refused(ImageError),
    /// Begin shutting down.
    Shutdown,
}

/// The directives that bring a device up: initial brightness, every tile
/// blanked, and a flush.
pub open spec fn spec_connect_plan(profile: DeviceProfile) -> Seq<Directive<Raster>> {
    (seq![Directive::<Raster>::Brightness(INITIAL_BRIGHTNESS)] + spec_blank_all(profile)).push(
        Directive::Flush,
    )
}

/// The directives to send once a device is open.
pub fn connect_plan(profile: &DeviceProfile) -> (plan: Vec<Directive<NativeBitmap>>)
    requires
        profile.wf(),
    ensures
        directives_view(plan@) == spec_connect_plan(*profile),
{
    let mut plan: Vec<Directive<NativeBitmap>> = Vec::new();
    plan.push(Directive::Brightness(INITIAL_BRIGHTNESS));
    let mut rest = directives_for(ImageCommand::ClearAll, profile);
    let ghost head = directives_view(plan@);
    let ghost tail = directives_view(rest@);
    plan.append(&mut rest);
    assert(directives_view(plan@) =~= head + tail);
    assert(head + tail =~= spec_connect_plan(*profile));
    plan
}

/// What applying a command comes to.
pub open spec fn spec_apply_command(profile: DeviceProfile, command: DeviceCommand)
    -> CommandOutcome<Seq<Directive<Raster>>> {
    match command {
        DeviceCommand::SetImage(evt) => match spec_handle_set_image(profile, evt) {
            Ok(ds) => CommandOutcome::Send(ds),
            Err(e) => CommandOutcome::Refused(e),
        },
        DeviceCommand::SetBrightness(percent) => CommandOutcome::Send(
            seq![Directive::Brightness(percent)],
        ),
        DeviceCommand::Shutdown => CommandOutcome::Shutdown,
    }
}

/// Applies a command from the inbox: an image event gives its directives or
/// is refused, a brightness change gives one directive, a shutdown request
/// gives no directive at all.
pub fn apply_command(profile: &DeviceProfile, command: &DeviceCommand) -> (outcome: CommandOutcome<
    Vec<Directive<NativeBitmap>>,
>)
    requires
        profile.wf(),
    ensures
        match outcome {
            CommandOutcome::Send(ds) => spec_apply_command(*profile, *command)
                == CommandOutcome::Send(directives_view(ds@)),
            CommandOutcome::Refused(e) => spec_apply_command(*profile, *command)
                == CommandOutcome::<Seq<Directive<Raster>>>::Refused(e),
            CommandOutcome::Shutdown => spec_apply_command(*profile, *command)
                == CommandOutcome::<Seq<Directive<Raster>>>::Shutdown,
        },
{
    match command {
        DeviceCommand::SetImage(evt) => match handle_set_image(profile, evt) {
            Ok(ds) => CommandOutcome::Send(ds),
            Err(e) => CommandOutcome::Refused(e),
        },
        DeviceCommand::SetBrightness(percent) => {
            let mut ds: Vec<Directive<NativeBitmap>> = Vec::new();
            ds.push(Directive::Brightness(*percent));
            assert(directives_view(ds@) =~= seq![Directive::<Raster>::Brightness(*percent)]);
            CommandOutcome::Send(ds)
        },
        DeviceCommand::Shutdown => CommandOutcome::Shutdown,
    }
}

/// The directive a session sends while shutting down.
pub fn shutdown_plan() -> (plan: Vec<Directive<NativeBitmap>>)
    ensures
        directives_view(plan@) == seq![Directive::<Raster>::PowerOff],
{
    let mut plan: Vec<Directive<NativeBitmap>> = Vec::new();
    plan.push(Directive::PowerOff);
    assert(directives_view(plan@) =~= seq![Directive::<Raster>::PowerOff]);
    plan
}

/// The event that the failure of a directive comes to: a failed flush is
/// an event of its own, whatever the error.
pub fn failure_event(directive: &Directive<NativeBitmap>, err: DeviceError) -> (event: SessionEvent)
    ensures
        event == if directive is Flush {
            SessionEvent::FlushFailed
        } else {
            SessionEvent::Failed(err)
        },
{
    match directive {
        Directive::Flush => SessionEvent::FlushFailed,
        _ => SessionEvent::Failed(err),
    }
}

} // verus!
