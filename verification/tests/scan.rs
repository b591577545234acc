use clipboard_bridge::errors::ScanError;
use clipboard_bridge::ids::CLIPBOARD_SERVICE_UUID;
use clipboard_bridge::scan::{
    collate_scan, AdvertisedProperties, BleDevice, PeripheralObservation, PropertiesOutcome,
    ScanAction, ScanEvent, ScanFlow,
};

fn observed(
    address: &str,
    name: Option<&str>,
    rssi: Option<i16>,
    services: Vec<u128>,
) -> PeripheralObservation {
    PeripheralObservation {
        address: address.to_string(),
        outcome: PropertiesOutcome::Available {
            properties: AdvertisedProperties {
                name: name.map(|n| n.to_string()),
                rssi,
                services,
            },
        },
    }
}

#[test]
fn keeps_only_devices_advertising_the_clipboard_service() {
    let observations = vec![
        observed("AA:01", Some("desk"), Some(-40), vec![CLIPBOARD_SERVICE_UUID]),
        observed("AA:02", Some("watch"), Some(-70), vec![0xDEAD_BEEF]),
    ];
    let devices = collate_scan(&observations).unwrap();
    assert_eq!(devices.len(), 1);
    assert_eq!(
        devices[0],
        BleDevice { name: Some("desk".to_string()), address: "AA:01".to_string(), rssi: Some(-40) }
    );
}

#[test]
fn preserves_order_and_never_deduplicates() {
    let observations = vec![
        observed("AA:01", None, None, vec![1, CLIPBOARD_SERVICE_UUID, 3]),
        observed("AA:02", None, Some(-1), vec![2]),
        observed("AA:01", None, None, vec![CLIPBOARD_SERVICE_UUID]),
        observed("AA:03", Some("n"), None, vec![CLIPBOARD_SERVICE_UUID]),
    ];
    let devices = collate_scan(&observations).unwrap();
    let addresses: Vec<&str> = devices.iter().map(|d| d.address.as_str()).collect();
    assert_eq!(addresses, vec!["AA:01", "AA:01", "AA:03"]);
}

#[test]
fn peripheral_without_properties_is_skipped() {
    let observations = vec![
        PeripheralObservation {
            address: "AA:01".to_string(),
            outcome: PropertiesOutcome::Missing,
        },
        observed("AA:02", None, None, vec![CLIPBOARD_SERVICE_UUID]),
    ];
    let devices = collate_scan(&observations).unwrap();
    assert_eq!(devices.len(), 1);
    assert_eq!(devices[0].address, "AA:02");
}

#[test]
fn one_fetch_failure_fails_the_whole_scan() {
    let observations = vec![
        observed("AA:01", None, None, vec![CLIPBOARD_SERVICE_UUID]),
        PeripheralObservation {
            address: "AA:02".to_string(),
            outcome: PropertiesOutcome::FetchFailed,
        },
    ];
    assert_eq!(collate_scan(&observations), Err(ScanError::PropertiesUnavailable));
}

#[test]
fn empty_scan_yields_no_devices() {
    let devices = collate_scan(&Vec::new()).unwrap();
    assert!(devices.is_empty());
}

#[test]
fn scan_flow_runs_stop_start_window_then_delivers() {
    let mut flow = ScanFlow::new();
    assert_eq!(flow.begin_scan(), ScanAction::RequestAdapter);
    assert_eq!(flow.scan_step(ScanEvent::AdapterReady), ScanAction::StopScan);
    assert_eq!(flow.scan_step(ScanEvent::ScanStopped), ScanAction::StartScan);
    assert_eq!(flow.scan_step(ScanEvent::ScanStarted), ScanAction::AwaitWindow);
    let observations = vec![
        observed("AA:01", Some("desk"), Some(-40), vec![CLIPBOARD_SERVICE_UUID]),
        observed("AA:02", None, None, vec![0x5555]),
    ];
    let action = flow.scan_step(ScanEvent::WindowElapsed { observations });
    let ScanAction::Deliver { devices } = action else {
        panic!("expected devices, got {action:?}");
    };
    assert_eq!(devices.len(), 1);
    assert_eq!(devices[0].address, "AA:01");
}

#[test]
fn scan_flow_surfaces_each_stage_failure() {
    let mut flow = ScanFlow::new();
    flow.begin_scan();
    assert_eq!(
        flow.scan_step(ScanEvent::AdapterMissing),
        ScanAction::Fail { error: ScanError::NoAdapter }
    );

    flow.begin_scan();
    flow.scan_step(ScanEvent::AdapterReady);
    assert_eq!(
        flow.scan_step(ScanEvent::ScanStopFailed),
        ScanAction::Fail { error: ScanError::ScanStopFailed }
    );

    flow.begin_scan();
    flow.scan_step(ScanEvent::AdapterReady);
    flow.scan_step(ScanEvent::ScanStopped);
    assert_eq!(
        flow.scan_step(ScanEvent::ScanStartFailed),
        ScanAction::Fail { error: ScanError::ScanStartFailed }
    );

    flow.begin_scan();
    flow.scan_step(ScanEvent::AdapterReady);
    flow.scan_step(ScanEvent::ScanStopped);
    flow.scan_step(ScanEvent::ScanStarted);
    let observations = vec![PeripheralObservation {
        address: "AA:01".to_string(),
        outcome: PropertiesOutcome::FetchFailed,
    }];
    assert_eq!(
        flow.scan_step(ScanEvent::WindowElapsed { observations }),
        ScanAction::Fail { error: ScanError::PropertiesUnavailable }
    );
}

#[test]
fn scan_flow_reports_which_event_it_awaits() {
    let mut flow = ScanFlow::new();
    assert!(!flow.accepts(&ScanEvent::AdapterReady));
    flow.begin_scan();
    assert!(flow.accepts(&ScanEvent::AdapterReady));
    assert!(!flow.accepts(&ScanEvent::ScanStarted));
}
