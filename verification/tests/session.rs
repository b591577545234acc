use clipboard_bridge::errors::{ConnectError, SendError};
use clipboard_bridge::gatt::{CharacteristicInfo, ServiceInfo};
use clipboard_bridge::ids::{CLIPBOARD_CHARACTERISTIC_UUID, CLIPBOARD_SERVICE_UUID};
use clipboard_bridge::session::{
    finish_send, ConnectAction, ConnectEvent, DiscoveredPeripheral, SessionManager, WriteCommand,
};

fn clipboard_characteristic(supports_notify: bool) -> CharacteristicInfo {
    CharacteristicInfo {
        uuid: CLIPBOARD_CHARACTERISTIC_UUID,
        supports_notify,
        supports_write_without_response: true,
    }
}

fn clipboard_services(supports_notify: bool) -> Vec<ServiceInfo> {
    vec![ServiceInfo {
        uuid: CLIPBOARD_SERVICE_UUID,
        characteristics: vec![clipboard_characteristic(supports_notify)],
    }]
}

fn peripheral(handle: u64, address: &str) -> DiscoveredPeripheral {
    DiscoveredPeripheral { handle, address: address.to_string() }
}

/// Drives a full connect attempt to the peripheral with the given handle
/// and address, whose discovered services are `services`.
fn connect(
    manager: &mut SessionManager,
    window: Vec<DiscoveredPeripheral>,
    address: &str,
    services: Vec<ServiceInfo>,
) -> ConnectAction {
    assert_eq!(manager.begin_connect(address.to_string()), ConnectAction::RequestAdapter);
    assert_eq!(manager.connect_step(ConnectEvent::AdapterReady), ConnectAction::StartScan);
    assert_eq!(manager.connect_step(ConnectEvent::ScanStarted), ConnectAction::AwaitWindow);
    let action = manager.connect_step(ConnectEvent::WindowElapsed { peripherals: window });
    let handle = match action {
        ConnectAction::Connect { handle } => handle,
        other => return other,
    };
    assert_eq!(
        manager.connect_step(ConnectEvent::ConnectSucceeded),
        ConnectAction::DiscoverServices { handle }
    );
    let action = manager.connect_step(ConnectEvent::ServicesDiscovered { services });
    match action {
        ConnectAction::Subscribe { .. } => manager.connect_step(ConnectEvent::SubscribeSucceeded),
        other => other,
    }
}

#[test]
fn connect_without_notify_completes_unsubscribed() {
    let mut manager = SessionManager::new();
    let action = connect(&mut manager, vec![peripheral(1, "AA:01")], "AA:01", clipboard_services(false));
    assert_eq!(action, ConnectAction::Complete);
    let session = manager.current_session().unwrap();
    assert_eq!(session.peripheral, 1);
    assert_eq!(session.characteristic, clipboard_characteristic(false));
    assert!(!session.subscribed);
}

#[test]
fn connect_with_notify_subscribes() {
    let mut manager = SessionManager::new();
    let action = connect(&mut manager, vec![peripheral(1, "AA:01")], "AA:01", clipboard_services(true));
    assert_eq!(action, ConnectAction::Complete);
    let session = manager.current_session().unwrap();
    assert!(session.subscribed);
}

#[test]
fn subscribe_failure_fails_the_attempt() {
    let mut manager = SessionManager::new();
    manager.begin_connect("AA:01".to_string());
    manager.connect_step(ConnectEvent::AdapterReady);
    manager.connect_step(ConnectEvent::ScanStarted);
    manager.connect_step(ConnectEvent::WindowElapsed { peripherals: vec![peripheral(1, "AA:01")] });
    manager.connect_step(ConnectEvent::ConnectSucceeded);
    let action = manager.connect_step(ConnectEvent::ServicesDiscovered {
        services: clipboard_services(true),
    });
    assert!(matches!(action, ConnectAction::Subscribe { .. }));
    let action = manager.connect_step(ConnectEvent::SubscribeFailed);
    assert_eq!(action, ConnectAction::Fail { error: ConnectError::SubscribeFailed });
    assert_eq!(manager.current_session(), None);
}

#[test]
fn first_matching_address_wins() {
    let mut manager = SessionManager::new();
    let window = vec![peripheral(1, "AA:00"), peripheral(2, "AA:01"), peripheral(3, "AA:01")];
    let action = connect(&mut manager, window, "AA:01", clipboard_services(false));
    assert_eq!(action, ConnectAction::Complete);
    assert_eq!(manager.current_session().unwrap().peripheral, 2);
}

#[test]
fn second_connect_replaces_the_session_and_governs_send() {
    let mut manager = SessionManager::new();
    connect(&mut manager, vec![peripheral(1, "AA:01")], "AA:01", clipboard_services(false));
    connect(&mut manager, vec![peripheral(2, "BB:02")], "BB:02", clipboard_services(true));
    let session = manager.current_session().unwrap();
    assert_eq!(session.peripheral, 2);
    assert!(session.subscribed);
    let command = manager.plan_send(&clipboard_services(true)).unwrap();
    assert_eq!(
        command,
        WriteCommand {
            peripheral: 2,
            characteristic: clipboard_characteristic(true),
            without_response: true
        }
    );
}

#[test]
fn failed_connect_preserves_the_working_session() {
    let mut manager = SessionManager::new();
    connect(&mut manager, vec![peripheral(1, "AA:01")], "AA:01", clipboard_services(false));
    let before = manager.current_session();
    assert!(before.is_some());
    let action = connect(&mut manager, vec![peripheral(2, "BB:02")], "CC:03", clipboard_services(false));
    assert_eq!(action, ConnectAction::Fail { error: ConnectError::DeviceNotFound });
    assert_eq!(manager.current_session(), before);
}

#[test]
fn absent_address_fails_device_not_found() {
    let mut manager = SessionManager::new();
    let action = connect(&mut manager, Vec::new(), "AA:01", clipboard_services(false));
    assert_eq!(action, ConnectAction::Fail { error: ConnectError::DeviceNotFound });
    assert_eq!(manager.current_session(), None);
}

#[test]
fn missing_service_reports_the_discovered_set() {
    let mut manager = SessionManager::new();
    let services = vec![
        ServiceInfo { uuid: 0x1111, characteristics: Vec::new() },
        ServiceInfo { uuid: 0x2222, characteristics: Vec::new() },
    ];
    let action = connect(&mut manager, vec![peripheral(1, "AA:01")], "AA:01", services);
    assert_eq!(
        action,
        ConnectAction::Fail { error: ConnectError::ServiceNotFound { available: vec![0x1111, 0x2222] } }
    );
    assert_eq!(manager.current_session(), None);
}

#[test]
fn missing_characteristic_reports_the_present_set() {
    let mut manager = SessionManager::new();
    let other = CharacteristicInfo {
        uuid: 0x3333,
        supports_notify: false,
        supports_write_without_response: false,
    };
    let services = vec![ServiceInfo {
        uuid: CLIPBOARD_SERVICE_UUID,
        characteristics: vec![other],
    }];
    let action = connect(&mut manager, vec![peripheral(1, "AA:01")], "AA:01", services);
    assert_eq!(
        action,
        ConnectAction::Fail { error: ConnectError::CharacteristicNotFound { available: vec![0x3333] } }
    );
}

#[test]
fn each_transport_failure_surfaces_its_own_error() {
    let mut manager = SessionManager::new();
    manager.begin_connect("AA:01".to_string());
    assert_eq!(
        manager.connect_step(ConnectEvent::AdapterMissing),
        ConnectAction::Fail { error: ConnectError::NoAdapter }
    );

    manager.begin_connect("AA:01".to_string());
    manager.connect_step(ConnectEvent::AdapterReady);
    assert_eq!(
        manager.connect_step(ConnectEvent::ScanStartFailed),
        ConnectAction::Fail { error: ConnectError::ScanStartFailed }
    );

    manager.begin_connect("AA:01".to_string());
    manager.connect_step(ConnectEvent::AdapterReady);
    manager.connect_step(ConnectEvent::ScanStarted);
    manager.connect_step(ConnectEvent::WindowElapsed { peripherals: vec![peripheral(1, "AA:01")] });
    assert_eq!(
        manager.connect_step(ConnectEvent::ConnectFailed),
        ConnectAction::Fail { error: ConnectError::ConnectFailed }
    );

    manager.begin_connect("AA:01".to_string());
    manager.connect_step(ConnectEvent::AdapterReady);
    manager.connect_step(ConnectEvent::ScanStarted);
    manager.connect_step(ConnectEvent::WindowElapsed { peripherals: vec![peripheral(1, "AA:01")] });
    manager.connect_step(ConnectEvent::ConnectSucceeded);
    assert_eq!(
        manager.connect_step(ConnectEvent::DiscoveryFailed),
        ConnectAction::Fail { error: ConnectError::ServiceDiscoveryFailed }
    );
}

#[test]
fn send_without_session_fails_not_connected_before_any_transport() {
    let manager = SessionManager::new();
    assert_eq!(manager.send_begin(), Err(SendError::NotConnected));
    assert_eq!(manager.plan_send(&clipboard_services(false)), Err(SendError::NotConnected));
}

#[test]
fn send_rederives_from_the_current_service_list() {
    let mut manager = SessionManager::new();
    connect(&mut manager, vec![peripheral(7, "AA:01")], "AA:01", clipboard_services(false));
    assert_eq!(manager.send_begin(), Ok(7));

    let changed = vec![ServiceInfo { uuid: 0x9999, characteristics: Vec::new() }];
    assert_eq!(
        manager.plan_send(&changed),
        Err(SendError::ServiceNotFound { available: vec![0x9999] })
    );

    let gutted = vec![ServiceInfo { uuid: CLIPBOARD_SERVICE_UUID, characteristics: Vec::new() }];
    assert_eq!(
        manager.plan_send(&gutted),
        Err(SendError::CharacteristicNotFound { available: Vec::new() })
    );
}

#[test]
fn write_outcome_maps_to_send_result() {
    assert_eq!(finish_send(true), Ok(()));
    assert_eq!(finish_send(false), Err(SendError::WriteFailed));
}

#[test]
fn manager_reports_which_event_it_awaits() {
    let mut manager = SessionManager::new();
    assert!(!manager.accepts(&ConnectEvent::AdapterReady));
    manager.begin_connect("AA:01".to_string());
    assert!(manager.accepts(&ConnectEvent::AdapterReady));
    assert!(manager.accepts(&ConnectEvent::AdapterMissing));
    assert!(!manager.accepts(&ConnectEvent::ScanStarted));
}
