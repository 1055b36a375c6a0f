//! Dispatcher: knows which devices are connected and decides where each
//! message goes.

use crate::commands::SetImageEvent;
use crate::registry::DeviceProfile;
use crate::session::DeviceCommand;
use crate::table::IdTable;
use vstd::prelude::*;

verus! {

/// A change on a device, as the host wants to hear of it.
#[derive(Debug, Clone, Copy, PartialEq, Eq, Structural)]
pub enum DeviceStateUpdate {
    ButtonDown(u8),
    ButtonUp(u8),
    EncoderDown(u8),
    EncoderUp(u8),
    EncoderTwist(u8, i8),
}

/// What reaches the dispatcher, from sessions and from the host.
#[derive(Debug, Clone)]
pub enum DeviceMessage {
    Connected(String, DeviceProfile),
    Disconnected(String),
    ShutdownAll,
    Update(String, DeviceStateUpdate),
    SetImage(String, SetImageEvent),
    SetBrightness(String, u8),
}

/// A call on the host, for the device the message named.
#[derive(Debug, Clone, Copy, PartialEq, Eq, Structural)]
pub enum HostCall {
    RegisterDevice { rows: u8, cols: u8, encoders: u8, touch_zones: u8 },
    DeregisterDevice,
    KeyDown(u8),
    KeyUp(u8),
    EncoderDown(u8),
    EncoderUp(u8),
    EncoderChange(u8, i16),
}

/// What the dispatcher's loop has to do with a message.
#[derive(Debug, Clone, Copy, PartialEq, Eq, Structural)]
pub enum DispatchAction {
    /// Make this call on the host.
    Call(HostCall),
    /// Offer the message's command to the inbox of the device it names,
    /// without waiting for room.
    Forward,
    /// Offer a shutdown command to every connected device.
    Broadcast,
    /// The message names a device that is not connected: log and drop it.
    DropUnknown,
}

/// The identifier a message names, if it names one.
pub open spec fn spec_target(message: DeviceMessage) -> Option<Seq<char>> {
    match message {
        DeviceMessage::Connected(id, _) => Some(id@),
        DeviceMessage::Disconnected(id) => Some(id@),
        DeviceMessage::ShutdownAll => None,
        DeviceMessage::Update(id, _) => Some(id@),
        DeviceMessage::SetImage(id, _) => Some(id@),
        DeviceMessage::SetBrightness(id, _) => Some(id@),
    }
}

/// The host call that tells of an update.
pub open spec fn spec_host_call(update: DeviceStateUpdate) -> HostCall {
    match update {
        DeviceStateUpdate::ButtonDown(key) => HostCall::KeyDown(key),
        DeviceStateUpdate::ButtonUp(key) => HostCall::KeyUp(key),
        DeviceStateUpdate::EncoderDown(encoder) => HostCall::EncoderDown(encoder),
        DeviceStateUpdate::EncoderUp(encoder) => HostCall::EncoderUp(encoder),
        DeviceStateUpdate::EncoderTwist(encoder, delta) => HostCall::EncoderChange(
            encoder,
            delta as i16,
        ),
    }
}

/// The host call that registers a device of the given profile.
pub open spec fn spec_registration(profile: DeviceProfile) -> HostCall {
    HostCall::RegisterDevice {
        rows: profile.rows,
        cols: profile.cols,
        encoders: profile.encoder_count,
        touch_zones: profile.touch_zones,
    }
}

/// The connected devices after a message.
pub open spec fn spec_routes_after(routes: Map<Seq<char>, DeviceProfile>, message: DeviceMessage)
    -> Map<Seq<char>, DeviceProfile> {
    match message {
        DeviceMessage::Connected(id, profile) => routes.insert(id@, profile),
        DeviceMessage::Disconnected(id) => routes.remove(id@),
        _ => routes,
    }
}

/// What is to be done with a message, given the connected devices.
pub open spec fn spec_action(routes: Map<Seq<char>, DeviceProfile>, message: DeviceMessage)
    -> DispatchAction {
    match message {
        DeviceMessage::Connected(_, profile) => DispatchAction::Call(spec_registration(profile)),
        DeviceMessage::Disconnected(_) => DispatchAction::Call(HostCall::DeregisterDevice),
        DeviceMessage::ShutdownAll => DispatchAction::Broadcast,
        DeviceMessage::Update(id, update) => if routes.contains_key(id@) {
            DispatchAction::Call(spec_host_call(update))
        } else {
            DispatchAction::DropUnknown
        },
        DeviceMessage::SetImage(id, _) => if routes.contains_key(id@) {
            DispatchAction::Forward
        } else {
            DispatchAction::DropUnknown
        },
        DeviceMessage::SetBrightness(id, _) => if routes.contains_key(id@) {
            DispatchAction::Forward
        } else {
            DispatchAction::DropUnknown
        },
    }
}

/// The command that a message asks a session to carry out.
pub open spec fn spec_command(message: DeviceMessage) -> Option<DeviceCommand> {
    match message {
        DeviceMessage::SetImage(_, evt) => Some(DeviceCommand::SetImage(evt)),
        DeviceMessage::SetBrightness(_, percent) => Some(DeviceCommand::SetBrightness(percent)),
        DeviceMessage::ShutdownAll => Some(DeviceCommand::Shutdown),
        _ => None,
    }
}

/// The host call for an update from a device.
pub fn host_call_for(update: DeviceStateUpdate) -> (call: HostCall)
    ensures
        call == spec_host_call(update),
{
    match update {
        DeviceStateUpdate::ButtonDown(key) => HostCall::KeyDown(key),
        DeviceStateUpdate::ButtonUp(key) => HostCall::KeyUp(key),
        DeviceStateUpdate::EncoderDown(encoder) => HostCall::EncoderDown(encoder),
        DeviceStateUpdate::EncoderUp(encoder) => HostCall::EncoderUp(encoder),
        DeviceStateUpdate::EncoderTwist(encoder, delta) => HostCall::EncoderChange(
            encoder,
            delta as i16,
        ),
    }
}

/// The command to put into a session's inbox for a message.
pub fn command_of(message: &DeviceMessage) -> (command: Option<DeviceCommand>)
    ensures
        command == spec_command(*message),
{
    match message {
        DeviceMessage::SetImage(_, evt) => {
            let image = match &evt.image {
                Some(payload) => Some(payload.clone()),
                None => None,
            };
            Some(
                DeviceCommand::SetImage(
                    SetImageEvent { controller: evt.controller, position: evt.position, image },
                ),
            )
        },
        DeviceMessage::SetBrightness(_, percent) => Some(DeviceCommand::SetBrightness(*percent)),
        DeviceMessage::ShutdownAll => Some(DeviceCommand::Shutdown),
        _ => None,
    }
}

/// The table of connected devices, and the decisions that go by it.
pub struct Dispatcher {
    routes: IdTable<DeviceProfile>,
}

impl Dispatcher {
    pub closed spec fn wf(&self) -> bool {
        self.routes.wf()
    }

    /// The connected devices, each with its profile.
    pub closed spec fn view(&self) -> Map<Seq<char>, DeviceProfile> {
        self.routes@
    }

    pub fn new() -> (dispatcher: Self)
        ensures
            dispatcher.wf(),
            dispatcher@ == Map::<Seq<char>, DeviceProfile>::empty(),
    {
        Dispatcher { routes: IdTable::new() }
    }

    /// Whether a device of this identifier is connected.
    pub fn is_connected(&self, id: &String) -> (yes: bool)
        requires
            self.wf(),
        ensures
            yes == self@.contains_key(id@),
    {
        self.routes.contains(id)
    }

    /// The identifiers of the connected devices, each once.
    pub fn connected(&self) -> (ids: Vec<String>)
        requires
            self.wf(),
        ensures
            forall|i: int| 0 <= i < ids@.len() ==> self@.contains_key(#[trigger] ids@[i]@),
            forall|id: Seq<char>|
                self@.contains_key(id) ==> exists|i: int|
                    0 <= i < ids@.len() && #[trigger] ids@[i]@ == id,
            forall|i: int, j: int| 0 <= i < j < ids@.len() ==> ids@[i]@ != ids@[j]@,
    {
        self.routes.ids()
    }

    /// Takes one message. A connecting device enters the table and is
    /// registered with its profile's counts; a disconnecting one leaves it
    /// and is deregistered. An update becomes a host call, an image or
    /// brightness request is forwarded, each only for a device in the table:
    /// for any other the message is dropped. No message but these two kinds
    /// changes the table.
    pub fn dispatch(&mut self, message: &DeviceMessage) -> (action: DispatchAction)
        requires
            old(self).wf(),
        ensures
            final(self).wf(),
            final(self)@ == spec_routes_after(old(self)@, *message),
            action == spec_action(old(self)@, *message),
    {
        match message {
            DeviceMessage::Connected(id, profile) => {
                self.routes.insert(id.clone(), *profile);
                DispatchAction::Call(
                    HostCall::RegisterDevice {
                        rows: profile.rows,
                        cols: profile.cols,
                        encoders: profile.encoder_count,
                        touch_zones: profile.touch_zones,
                    },
                )
            },
            DeviceMessage::Disconnected(id) => {
                self.routes.remove(id);
                DispatchAction::Call(HostCall::DeregisterDevice)
            },
            DeviceMessage::ShutdownAll => DispatchAction::Broadcast,
            DeviceMessage::Update(id, update) => {
                if self.routes.contains(id) {
                    DispatchAction::Call(host_call_for(*update))
                } else {
                    DispatchAction::DropUnknown
                }
            },
            DeviceMessage::SetImage(id, _) => {
                if self.routes.contains(id) {
                    DispatchAction::Forward
                } else {
                    DispatchAction::DropUnknown
                }
            },
            DeviceMessage::SetBrightness(id, _) => {
                if self.routes.contains(id) {
                    DispatchAction::Forward
                } else {
                    DispatchAction::DropUnknown
                }
            },
        }
    }
}

/// Once a device has disconnected, nothing is forwarded to it and none of
/// its updates reaches the host until it connects again.
pub proof fn lemma_disconnected_is_unknown(
    routes: Map<Seq<char>, DeviceProfile>,
    id: String,
    later: DeviceMessage,
)
    requires
        spec_target(later) == Some(id@),
        !(later is Connected),
        !(later is Disconnected),
    ensures
        spec_action(spec_routes_after(routes, DeviceMessage::Disconnected(id)), later)
            == DispatchAction::DropUnknown,
{
}

/// A message about one device never changes what is known of another.
pub proof fn lemma_devices_are_isolated(
    routes: Map<Seq<char>, DeviceProfile>,
    message: DeviceMessage,
    other: Seq<char>,
)
    requires
        spec_target(message) != Some(other),
    ensures
        spec_routes_after(routes, message).contains_key(other) == routes.contains_key(other),
        routes.contains_key(other) ==> spec_routes_after(routes, message)[other] == routes[other],
{
}

} // verus!
