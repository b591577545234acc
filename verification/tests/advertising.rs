use clipboard_bridge::advertising::{
    AdvertisingController, AdvertisingPlatform, StartAdvertising, StopAdvertising,
};
use clipboard_bridge::errors::AdvertiseError;

#[test]
fn first_start_launches_without_stopping() {
    let mut controller = AdvertisingController::new(AdvertisingPlatform::MacSidecar);
    let command = controller
        .start_advertising(Some("desk".to_string()), Some("12345678".to_string()))
        .unwrap();
    assert_eq!(
        command,
        StartAdvertising {
            stop_prior: false,
            name: Some("desk".to_string()),
            service_uuid: Some("12345678".to_string()),
        }
    );
}

#[test]
fn starting_while_advertising_stops_the_prior_broadcaster() {
    let mut controller = AdvertisingController::new(AdvertisingPlatform::MacSidecar);
    controller.start_advertising(None, None).unwrap();
    let command = controller.start_advertising(None, None).unwrap();
    assert!(command.stop_prior);
}

#[test]
fn stop_halts_only_a_running_broadcaster() {
    let mut controller = AdvertisingController::new(AdvertisingPlatform::MacSidecar);
    assert_eq!(controller.stop_advertising(), Ok(StopAdvertising { halt: false }));
    controller.start_advertising(None, None).unwrap();
    assert_eq!(controller.stop_advertising(), Ok(StopAdvertising { halt: true }));
    assert_eq!(controller.stop_advertising(), Ok(StopAdvertising { halt: false }));
}

#[test]
fn platforms_without_a_broadcast_role_refuse_explicitly() {
    for platform in [AdvertisingPlatform::WindowsStub, AdvertisingPlatform::Unsupported] {
        let mut controller = AdvertisingController::new(platform);
        assert_eq!(
            controller.start_advertising(None, None),
            Err(AdvertiseError::PlatformUnsupported)
        );
        assert_eq!(controller.stop_advertising(), Err(AdvertiseError::PlatformUnsupported));
    }
}
