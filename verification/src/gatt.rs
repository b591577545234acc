//! GATT resolution: locating the clipboard service and the clipboard
//! characteristic in the service list discovered on a connection.
//!
//! Resolution is performed per connection and again on every send (the
//! stored peripheral's current service list is consulted, not a cache),
//! so a peripheral whose GATT table changed between connect and send is
//! detected.  When the wanted entry is absent, the identifiers actually
//! present are reported, so a table mismatch can be diagnosed without a
//! second, more verbose run.

use vstd::prelude::*;

use crate::ids::{CLIPBOARD_CHARACTERISTIC_UUID, CLIPBOARD_SERVICE_UUID};

verus! {

/// A characteristic discovered on a connection: its identifier and the
/// two property flags the bridge acts on.
#[derive(Clone, Copy, Debug, PartialEq, Eq, Structural)]
pub struct CharacteristicInfo {
    pub uuid: u128,
    pub supports_notify: bool,
    pub supports_write_without_response: bool,
}

/// A GATT service discovered on a connection: its identifier and the
/// characteristics it groups.
#[derive(Clone, Debug, PartialEq)]
pub struct ServiceInfo {
    pub uuid: u128,
    pub characteristics: Vec<CharacteristicInfo>,
}

/// The identifiers of a discovered service list, in discovery order.
pub open spec fn spec_service_uuids(services: Seq<ServiceInfo>) -> Seq<u128> {
    services.map_values(|service: ServiceInfo| service.uuid)
}

/// The identifiers of a service's characteristics, in discovery order.
pub open spec fn spec_characteristic_uuids(characteristics: Seq<CharacteristicInfo>) -> Seq<
    u128,
> {
    characteristics.map_values(|characteristic: CharacteristicInfo| characteristic.uuid)
}

/// The first discovered service whose identifier is the clipboard
/// service identifier, if any.
pub open spec fn spec_find_clipboard_service(services: Seq<ServiceInfo>) -> Option<ServiceInfo>
    decreases services.len(),
{
    if services.len() == 0 {
        None
    } else if services[0].uuid == CLIPBOARD_SERVICE_UUID {
        Some(services[0])
    } else {
        spec_find_clipboard_service(services.drop_first())
    }
}

/// The first characteristic whose identifier is the clipboard
/// characteristic identifier, if any.
pub open spec fn spec_find_clipboard_characteristic(
    characteristics: Seq<CharacteristicInfo>,
) -> Option<CharacteristicInfo>
    decreases characteristics.len(),
{
    if characteristics.len() == 0 {
        None
    } else if characteristics[0].uuid == CLIPBOARD_CHARACTERISTIC_UUID {
        Some(characteristics[0])
    } else {
        spec_find_clipboard_characteristic(characteristics.drop_first())
    }
}

/// Outcome of resolving the clipboard characteristic in a discovered
/// service list.
#[derive(Clone, Debug, PartialEq)]
pub enum Resolution {
    /// No clipboard service; `available` holds exactly the service
    /// identifiers that were discovered.
    NoService { available: Vec<u128> },
    /// The clipboard service holds no clipboard characteristic;
    /// `available` holds exactly the characteristic identifiers present.
    NoCharacteristic { available: Vec<u128> },
    /// The clipboard characteristic, with its property flags.
    Found { characteristic: CharacteristicInfo },
}

/// Spec-level value of a [`Resolution`].
pub enum ResolutionView {
    NoService { available: Seq<u128> },
    NoCharacteristic { available: Seq<u128> },
    Found { characteristic: CharacteristicInfo },
}

impl View for Resolution {
    type V = ResolutionView;

    open spec fn view(&self) -> ResolutionView {
        match self {
            Resolution::NoService { available } => ResolutionView::NoService {
                available: available@,
            },
            Resolution::NoCharacteristic { available } => ResolutionView::NoCharacteristic {
                available: available@,
            },
            Resolution::Found { characteristic } => ResolutionView::Found {
                characteristic: *characteristic,
            },
        }
    }
}

/// What resolution yields on a given service list.
pub open spec fn spec_resolve(services: Seq<ServiceInfo>) -> ResolutionView {
    match spec_find_clipboard_service(services) {
        Option::None => ResolutionView::NoService { available: spec_service_uuids(services) },
        Option::Some(service) => match spec_find_clipboard_characteristic(
            service.characteristics@,
        ) {
            Option::None => ResolutionView::NoCharacteristic {
                available: spec_characteristic_uuids(service.characteristics@),
            },
            Option::Some(characteristic) => ResolutionView::Found { characteristic },
        },
    }
}

/// Locates the clipboard service, then the clipboard characteristic
/// within it, in a freshly discovered service list.
pub fn resolve_clipboard_characteristic(services: &Vec<ServiceInfo>) -> (r: Resolution)
    ensures
        r@ == spec_resolve(services@),
{
    let total = services.len();
    let mut i: usize = 0;
    proof {
        assert(services@.skip(0) =~= services@);
    }
    while i < total
        invariant
            i <= total,
            total == services@.len(),
            spec_find_clipboard_service(services@) == spec_find_clipboard_service(
                services@.skip(i as int),
            ),
        decreases total - i,
    {
        if services[i].uuid == CLIPBOARD_SERVICE_UUID {
            let service = &services[i];
            proof {
                assert(services@.skip(i as int)[0] == services@[i as int]);
            }
            return resolve_within_service(service);
        }
        proof {
            assert(services@.skip(i as int).drop_first() =~= services@.skip(i as int + 1));
        }
        i = i + 1;
    }
    let mut available: Vec<u128> = Vec::new();
    let mut j: usize = 0;
    while j < total
        invariant
            j <= total,
            total == services@.len(),
            available@ == spec_service_uuids(services@.take(j as int)),
        decreases total - j,
    {
        available.push(services[j].uuid);
        proof {
            assert(available@ =~= spec_service_uuids(services@.take(j as int + 1)));
        }
        j = j + 1;
    }
    proof {
        assert(services@.take(total as int) =~= services@);
    }
    Resolution::NoService { available }
}

/// Locates the clipboard characteristic within an already located
/// clipboard service.
fn resolve_within_service(service: &ServiceInfo) -> (r: Resolution)
    requires
        service.uuid == CLIPBOARD_SERVICE_UUID,
    ensures
        r@ == match spec_find_clipboard_characteristic(service.characteristics@) {
            Option::None => ResolutionView::NoCharacteristic {
                available: spec_characteristic_uuids(service.characteristics@),
            },
            Option::Some(characteristic) => ResolutionView::Found { characteristic },
        },
{
    let total = service.characteristics.len();
    let mut i: usize = 0;
    proof {
        assert(service.characteristics@.skip(0) =~= service.characteristics@);
    }
    while i < total
        invariant
            i <= total,
            total == service.characteristics@.len(),
            spec_find_clipboard_characteristic(service.characteristics@)
                == spec_find_clipboard_characteristic(service.characteristics@.skip(i as int)),
        decreases total - i,
    {
        if service.characteristics[i].uuid == CLIPBOARD_CHARACTERISTIC_UUID {
            proof {
                assert(service.characteristics@.skip(i as int)[0]
                    == service.characteristics@[i as int]);
            }
            return Resolution::Found { characteristic: service.characteristics[i] };
        }
        proof {
            assert(service.characteristics@.skip(i as int).drop_first()
                =~= service.characteristics@.skip(i as int + 1));
        }
        i = i + 1;
    }
    let mut available: Vec<u128> = Vec::new();
    let mut j: usize = 0;
    while j < total
        invariant
            j <= total,
            total == service.characteristics@.len(),
            available@ == spec_characteristic_uuids(service.characteristics@.take(j as int)),
        decreases total - j,
    {
        available.push(service.characteristics[j].uuid);
        proof {
            assert(available@ =~= spec_characteristic_uuids(
                service.characteristics@.take(j as int + 1),
            ));
        }
        j = j + 1;
    }
    proof {
        assert(service.characteristics@.take(total as int) =~= service.characteristics@);
    }
    Resolution::NoCharacteristic { available }
}

} // verus!
