use deckpanel::commands::{Controller, SetImageEvent};
use deckpanel::dispatcher::{
    command_of, host_call_for, DeviceMessage, DeviceStateUpdate, DispatchAction, Dispatcher,
    HostCall,
};
use deckpanel::registry::Kind;
use deckpanel::session::DeviceCommand;
use deckpanel::table::IdTable;

fn clear(position: u8) -> SetImageEvent {
    SetImageEvent { controller: Controller::Keypad, position: Some(position), image: None }
}

#[test]
fn connecting_registers_with_the_profile_counts() {
    let mut d = Dispatcher::new();
    let action = d.dispatch(&DeviceMessage::Connected("n4-A".to_string(), Kind::N4.profile()));
    assert_eq!(
        action,
        DispatchAction::Call(HostCall::RegisterDevice { rows: 2, cols: 5, encoders: 4, touch_zones: 4 })
    );
    assert!(d.is_connected(&"n4-A".to_string()));
    assert!(!d.is_connected(&"n4-B".to_string()));
}

#[test]
fn disconnecting_deregisters() {
    let mut d = Dispatcher::new();
    d.dispatch(&DeviceMessage::Connected("n4-A".to_string(), Kind::N4.profile()));
    d.dispatch(&DeviceMessage::Connected("n4-B".to_string(), Kind::Akp05.profile()));
    let action = d.dispatch(&DeviceMessage::Disconnected("n4-A".to_string()));
    assert_eq!(action, DispatchAction::Call(HostCall::DeregisterDevice));
    assert!(!d.is_connected(&"n4-A".to_string()));
    assert!(d.is_connected(&"n4-B".to_string()));
    assert_eq!(d.connected(), vec!["n4-B".to_string()]);
}

#[test]
fn updates_become_host_calls() {
    assert_eq!(host_call_for(DeviceStateUpdate::ButtonDown(3)), HostCall::KeyDown(3));
    assert_eq!(host_call_for(DeviceStateUpdate::ButtonUp(3)), HostCall::KeyUp(3));
    assert_eq!(host_call_for(DeviceStateUpdate::EncoderDown(1)), HostCall::EncoderDown(1));
    assert_eq!(host_call_for(DeviceStateUpdate::EncoderUp(1)), HostCall::EncoderUp(1));
    assert_eq!(host_call_for(DeviceStateUpdate::EncoderTwist(2, -1)), HostCall::EncoderChange(2, -1));
    assert_eq!(host_call_for(DeviceStateUpdate::EncoderTwist(2, 1)), HostCall::EncoderChange(2, 1));
    assert_eq!(
        host_call_for(DeviceStateUpdate::EncoderTwist(0, -128)),
        HostCall::EncoderChange(0, -128)
    );
}

#[test]
fn updates_of_connected_devices_reach_the_host() {
    let mut d = Dispatcher::new();
    d.dispatch(&DeviceMessage::Connected("n4-A".to_string(), Kind::N4.profile()));
    let action =
        d.dispatch(&DeviceMessage::Update("n4-A".to_string(), DeviceStateUpdate::ButtonDown(4)));
    assert_eq!(action, DispatchAction::Call(HostCall::KeyDown(4)));
    let action =
        d.dispatch(&DeviceMessage::Update("n4-A".to_string(), DeviceStateUpdate::EncoderTwist(3, 1)));
    assert_eq!(action, DispatchAction::Call(HostCall::EncoderChange(3, 1)));
}

#[test]
fn messages_for_unknown_devices_are_dropped() {
    let mut d = Dispatcher::new();
    d.dispatch(&DeviceMessage::Connected("n4-A".to_string(), Kind::N4.profile()));
    let id = "n4-Z".to_string();
    assert_eq!(
        d.dispatch(&DeviceMessage::Update(id.clone(), DeviceStateUpdate::ButtonUp(1))),
        DispatchAction::DropUnknown
    );
    assert_eq!(d.dispatch(&DeviceMessage::SetImage(id.clone(), clear(1))), DispatchAction::DropUnknown);
    assert_eq!(d.dispatch(&DeviceMessage::SetBrightness(id, 40)), DispatchAction::DropUnknown);
    assert_eq!(d.connected(), vec!["n4-A".to_string()]);
}

#[test]
fn commands_are_forwarded_to_connected_devices() {
    let mut d = Dispatcher::new();
    d.dispatch(&DeviceMessage::Connected("n4-A".to_string(), Kind::N4.profile()));
    let first = DeviceMessage::SetImage("n4-A".to_string(), clear(1));
    let second = DeviceMessage::SetImage("n4-A".to_string(), clear(2));
    assert_eq!(d.dispatch(&first), DispatchAction::Forward);
    assert_eq!(d.dispatch(&second), DispatchAction::Forward);
    assert_eq!(d.dispatch(&DeviceMessage::SetBrightness("n4-A".to_string(), 100)), DispatchAction::Forward);
    match command_of(&second) {
        Some(DeviceCommand::SetImage(evt)) => {
            assert_eq!(evt.position, Some(2));
            assert_eq!(evt.controller, Controller::Keypad);
            assert_eq!(evt.image, None);
        }
        _ => panic!("wrong command"),
    }
}

#[test]
fn commands_carry_the_payload() {
    let evt = SetImageEvent {
        controller: Controller::Encoder,
        position: None,
        image: Some("data:,x".to_string()),
    };
    match command_of(&DeviceMessage::SetImage("n4-A".to_string(), evt)) {
        Some(DeviceCommand::SetImage(evt)) => {
            assert_eq!(evt.image.as_deref(), Some("data:,x"));
            assert_eq!(evt.controller, Controller::Encoder);
            assert_eq!(evt.position, None);
        }
        _ => panic!("wrong command"),
    }
    assert!(matches!(
        command_of(&DeviceMessage::SetBrightness("a".to_string(), 33)),
        Some(DeviceCommand::SetBrightness(33))
    ));
    assert!(matches!(command_of(&DeviceMessage::ShutdownAll), Some(DeviceCommand::Shutdown)));
    assert!(command_of(&DeviceMessage::Disconnected("a".to_string())).is_none());
    assert!(command_of(&DeviceMessage::Connected("a".to_string(), Kind::N4.profile())).is_none());
}

#[test]
fn shutdown_is_broadcast() {
    let mut d = Dispatcher::new();
    assert_eq!(d.dispatch(&DeviceMessage::ShutdownAll), DispatchAction::Broadcast);
    d.dispatch(&DeviceMessage::Connected("n4-A".to_string(), Kind::N4.profile()));
    d.dispatch(&DeviceMessage::Connected("n4-B".to_string(), Kind::N4.profile()));
    assert_eq!(d.dispatch(&DeviceMessage::ShutdownAll), DispatchAction::Broadcast);
    let mut ids = d.connected();
    ids.sort();
    assert_eq!(ids, vec!["n4-A".to_string(), "n4-B".to_string()]);
}

#[test]
fn connecting_twice_keeps_one_entry() {
    let mut d = Dispatcher::new();
    d.dispatch(&DeviceMessage::Connected("n4-A".to_string(), Kind::N4.profile()));
    d.dispatch(&DeviceMessage::Connected("n4-A".to_string(), Kind::Akp05.profile()));
    assert_eq!(d.connected(), vec!["n4-A".to_string()]);
    d.dispatch(&DeviceMessage::Disconnected("n4-A".to_string()));
    assert!(d.connected().is_empty());
}

#[test]
fn one_device_leaving_does_not_touch_another() {
    let mut d = Dispatcher::new();
    d.dispatch(&DeviceMessage::Connected("n4-A".to_string(), Kind::N4.profile()));
    d.dispatch(&DeviceMessage::Connected("n4-B".to_string(), Kind::N4.profile()));
    d.dispatch(&DeviceMessage::Disconnected("n4-A".to_string()));
    assert_eq!(
        d.dispatch(&DeviceMessage::Update("n4-B".to_string(), DeviceStateUpdate::EncoderDown(0))),
        DispatchAction::Call(HostCall::EncoderDown(0))
    );
    assert_eq!(d.dispatch(&DeviceMessage::SetImage("n4-B".to_string(), clear(0))), DispatchAction::Forward);
}

#[test]
fn table_insert_get_remove() {
    let mut t: IdTable<u32> = IdTable::new();
    assert_eq!(t.insert("a".to_string(), 1), None);
    assert_eq!(t.insert("b".to_string(), 2), None);
    assert_eq!(t.insert("a".to_string(), 3), Some(1));
    assert_eq!(t.get(&"a".to_string()), Some(&3));
    assert_eq!(t.get(&"b".to_string()), Some(&2));
    assert_eq!(t.get(&"c".to_string()), None);
    assert!(t.contains(&"b".to_string()));
    assert_eq!(t.remove(&"b".to_string()), Some(2));
    assert_eq!(t.remove(&"b".to_string()), None);
    assert!(!t.contains(&"b".to_string()));
    assert_eq!(t.ids(), vec!["a".to_string()]);
}
