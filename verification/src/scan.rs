//! The device scanner's filtering core.
//!
//! A discovery scan is broad: the radio is scanned with no filter, and
//! filtering happens here, in application logic.  The shell performs the
//! time-boxed scan, enumerates every peripheral the adapter observed and
//! fetches each one's advertised properties; this module turns those
//! observations into device records, keeping exactly the peripherals
//! whose advertised service set contains the clipboard service
//! identifier.  Enumeration order is preserved and nothing is
//! deduplicated: a peripheral readvertising under a changed address
//! appears as a new entry.

use vstd::prelude::*;

use crate::errors::ScanError;
use crate::ids::CLIPBOARD_SERVICE_UUID;

verus! {

/// A lightweight record of one discovered clipboard-capable device:
/// advertised name, platform-stable address and signal strength.
/// Produced transiently by a scan and never persisted; devices are equal
/// when their addresses are equal.
#[derive(Clone, Debug, PartialEq)]
pub struct BleDevice {
    pub name: Option<String>,
    pub address: String,
    pub rssi: Option<i16>,
}

/// Spec-level value of a [`BleDevice`].
pub struct BleDeviceView {
    pub name: Option<Seq<char>>,
    pub address: Seq<char>,
    pub rssi: Option<i16>,
}

impl View for BleDevice {
    type V = BleDeviceView;

    open spec fn view(&self) -> BleDeviceView {
        BleDeviceView { name: self.name.deep_view(), address: self.address@, rssi: self.rssi }
    }
}

/// The advertised properties fetched for one observed peripheral.
#[derive(Clone, Debug, PartialEq)]
pub struct AdvertisedProperties {
    pub name: Option<String>,
    pub rssi: Option<i16>,
    /// The peripheral's advertised service identifiers.
    pub services: Vec<u128>,
}

/// What fetching a peripheral's advertised properties yielded.
#[derive(Clone, Debug, PartialEq)]
pub enum PropertiesOutcome {
    /// The fetch itself failed; one such failure fails the whole scan.
    FetchFailed,
    /// The fetch succeeded but the platform has no properties for this
    /// peripheral; it is skipped.
    Missing,
    /// The advertised properties.
    Available { properties: AdvertisedProperties },
}

/// One peripheral as enumerated by the adapter after the scan window,
/// with the outcome of fetching its advertised properties.
#[derive(Clone, Debug, PartialEq)]
pub struct PeripheralObservation {
    pub address: String,
    pub outcome: PropertiesOutcome,
}

/// Whether some property fetch failed.
pub open spec fn spec_fetch_failed(observations: Seq<PeripheralObservation>) -> bool {
    exists|i: int|
        0 <= i < observations.len() && observations[i].outcome is FetchFailed
}

/// The device record an observation contributes: one record exactly when
/// its advertised service set contains the clipboard service identifier.
pub open spec fn spec_observation_device(observation: PeripheralObservation) -> Option<
    BleDeviceView,
> {
    match observation.outcome {
        PropertiesOutcome::Available { properties } => if properties.services@.contains(
            CLIPBOARD_SERVICE_UUID,
        ) {
            Some(
                BleDeviceView {
                    name: properties.name.deep_view(),
                    address: observation.address@,
                    rssi: properties.rssi,
                },
            )
        } else {
            None
        },
        _ => None,
    }
}

/// The device records of a scan, in adapter enumeration order, without
/// deduplication.
pub open spec fn spec_clipboard_devices(observations: Seq<PeripheralObservation>) -> Seq<
    BleDeviceView,
>
    decreases observations.len(),
{
    if observations.len() == 0 {
        Seq::empty()
    } else {
        let front = spec_clipboard_devices(observations.drop_last());
        match spec_observation_device(observations.last()) {
            Some(device) => front.push(device),
            None => front,
        }
    }
}

/// Copies an optional advertised name.
fn clone_optional_text(text: &Option<String>) -> (r: Option<String>)
    ensures
        r.deep_view() == text.deep_view(),
{
    match text {
        Option::Some(t) => Option::Some(t.clone()),
        Option::None => Option::None,
    }
}

/// Turns the observations of one scan into the scan's result: the
/// records of the peripherals advertising the clipboard service, in
/// enumeration order, or the scan's failure if any property fetch
/// failed.
pub fn collate_scan(observations: &Vec<PeripheralObservation>) -> (r: Result<
    Vec<BleDevice>,
    ScanError,
>)
    ensures
        match r {
            Ok(devices) => !spec_fetch_failed(observations@) && devices@.map_values(
                |device: BleDevice| device@,
            ) == spec_clipboard_devices(observations@),
            Err(error) => spec_fetch_failed(observations@) && error
                == ScanError::PropertiesUnavailable,
        },
{
    let total = observations.len();
    let mut devices: Vec<BleDevice> = Vec::new();
    let mut i: usize = 0;
    proof {
        assert(observations@.take(0) =~= Seq::<PeripheralObservation>::empty());
        assert(devices@.map_values(|device: BleDevice| device@) =~= spec_clipboard_devices(
            observations@.take(0),
        ));
    }
    while i < total
        invariant
            i <= total,
            total == observations@.len(),
            forall|j: int| 0 <= j < i ==> !(observations@[j].outcome is FetchFailed),
            devices@.map_values(|device: BleDevice| device@) == spec_clipboard_devices(
                observations@.take(i as int),
            ),
        decreases total - i,
    {
        let observation = &observations[i];
        match &observation.outcome {
            PropertiesOutcome::FetchFailed => {
                return Err(ScanError::PropertiesUnavailable);
            },
            PropertiesOutcome::Missing => {},
            PropertiesOutcome::Available { properties } => {
                if contains_uuid(&properties.services, CLIPBOARD_SERVICE_UUID) {
                    let device = BleDevice {
                        name: clone_optional_text(&properties.name),
                        address: observation.address.clone(),
                        rssi: properties.rssi,
                    };
                    devices.push(device);
                }
            },
        }
        proof {
            assert(observations@.take(i as int + 1).drop_last() =~= observations@.take(i as int));
            assert(observations@.take(i as int + 1).last() == observations@[i as int]);
            assert(devices@.map_values(|device: BleDevice| device@) =~= spec_clipboard_devices(
                observations@.take(i as int + 1),
            ));
        }
        i = i + 1;
    }
    proof {
        assert(observations@.take(total as int) =~= observations@);
    }
    Ok(devices)
}

/// Whether a list of advertised service identifiers contains one.
fn contains_uuid(uuids: &Vec<u128>, wanted: u128) -> (r: bool)
    ensures
        r == uuids@.contains(wanted),
{
    let total = uuids.len();
    let mut i: usize = 0;
    while i < total
        invariant
            i <= total,
            total == uuids@.len(),
            forall|j: int| 0 <= j < i ==> uuids@[j] != wanted,
        decreases total - i,
    {
        if uuids[i] == wanted {
            return true;
        }
        i = i + 1;
    }
    false
}

/// Where a discovery scan stands; `Idle` when none is in progress.
#[derive(Clone, Copy, Debug, PartialEq, Eq, Structural)]
pub enum ScanPhase {
    Idle,
    AwaitAdapter,
    AwaitScanStop,
    AwaitScanStart,
    AwaitWindow,
}

/// The outcome of one awaited radio call of a scan.
#[derive(Debug, PartialEq)]
pub enum ScanEvent {
    /// An adapter was obtained.
    AdapterReady,
    /// No Bluetooth adapter exists.
    AdapterMissing,
    /// Any scan already in progress is stopped (its absence is not an
    /// error: stopping is idempotent).
    ScanStopped,
    /// Stopping the prior scan failed.
    ScanStopFailed,
    /// The broad, unfiltered scan started.
    ScanStarted,
    /// The scan could not start.
    ScanStartFailed,
    /// The fixed window elapsed; every peripheral the adapter observed
    /// was enumerated and its advertised properties fetched.
    WindowElapsed { observations: Vec<PeripheralObservation> },
}

/// Spec-level value of a [`ScanEvent`].
pub enum ScanEventView {
    AdapterReady,
    AdapterMissing,
    ScanStopped,
    ScanStopFailed,
    ScanStarted,
    ScanStartFailed,
    WindowElapsed { observations: Seq<PeripheralObservation> },
}

impl View for ScanEvent {
    type V = ScanEventView;

    open spec fn view(&self) -> ScanEventView {
        match self {
            ScanEvent::AdapterReady => ScanEventView::AdapterReady,
            ScanEvent::AdapterMissing => ScanEventView::AdapterMissing,
            ScanEvent::ScanStopped => ScanEventView::ScanStopped,
            ScanEvent::ScanStopFailed => ScanEventView::ScanStopFailed,
            ScanEvent::ScanStarted => ScanEventView::ScanStarted,
            ScanEvent::ScanStartFailed => ScanEventView::ScanStartFailed,
            ScanEvent::WindowElapsed { observations } => ScanEventView::WindowElapsed {
                observations: observations@,
            },
        }
    }
}

/// What the shell must do next for a scan.
#[derive(Debug, PartialEq)]
pub enum ScanAction {
    /// Obtain the Bluetooth adapter.
    RequestAdapter,
    /// Stop any scan already in progress.
    StopScan,
    /// Start an unfiltered scan: discovery is broad, the filtering
    /// happens here and not at the radio.
    StartScan,
    /// Let the fixed window elapse, then enumerate and fetch properties.
    AwaitWindow,
    /// The scan finished with these device records.
    Deliver { devices: Vec<BleDevice> },
    /// The scan failed.
    Fail { error: ScanError },
}

/// Spec-level value of a [`ScanAction`].
pub enum ScanActionView {
    RequestAdapter,
    StopScan,
    StartScan,
    AwaitWindow,
    Deliver { devices: Seq<BleDeviceView> },
    Fail { error: ScanError },
}

impl View for ScanAction {
    type V = ScanActionView;

    open spec fn view(&self) -> ScanActionView {
        match self {
            ScanAction::RequestAdapter => ScanActionView::RequestAdapter,
            ScanAction::StopScan => ScanActionView::StopScan,
            ScanAction::StartScan => ScanActionView::StartScan,
            ScanAction::AwaitWindow => ScanActionView::AwaitWindow,
            ScanAction::Deliver { devices } => ScanActionView::Deliver {
                devices: devices@.map_values(|device: BleDevice| device@),
            },
            ScanAction::Fail { error } => ScanActionView::Fail { error: *error },
        }
    }
}

/// Whether an event is the outcome the scan phase is awaiting.
pub open spec fn spec_scan_accepts(phase: ScanPhase, event: ScanEventView) -> bool {
    match (phase, event) {
        (ScanPhase::AwaitAdapter, ScanEventView::AdapterReady) => true,
        (ScanPhase::AwaitAdapter, ScanEventView::AdapterMissing) => true,
        (ScanPhase::AwaitScanStop, ScanEventView::ScanStopped) => true,
        (ScanPhase::AwaitScanStop, ScanEventView::ScanStopFailed) => true,
        (ScanPhase::AwaitScanStart, ScanEventView::ScanStarted) => true,
        (ScanPhase::AwaitScanStart, ScanEventView::ScanStartFailed) => true,
        (ScanPhase::AwaitWindow, ScanEventView::WindowElapsed { .. }) => true,
        _ => false,
    }
}

/// One step of the scan procedure: the phase after the event and the
/// action the shell must take next.  Every transport failure surfaces
/// immediately as its own error kind; the window's observations are
/// collated exactly as [`spec_clipboard_devices`] says.
pub open spec fn spec_scan_step(phase: ScanPhase, event: ScanEventView) -> (
    ScanPhase,
    ScanActionView,
) {
    match (phase, event) {
        (ScanPhase::AwaitAdapter, ScanEventView::AdapterReady) => (
            ScanPhase::AwaitScanStop,
            ScanActionView::StopScan,
        ),
        (ScanPhase::AwaitAdapter, ScanEventView::AdapterMissing) => (
            ScanPhase::Idle,
            ScanActionView::Fail { error: ScanError::NoAdapter },
        ),
        (ScanPhase::AwaitScanStop, ScanEventView::ScanStopped) => (
            ScanPhase::AwaitScanStart,
            ScanActionView::StartScan,
        ),
        (ScanPhase::AwaitScanStop, ScanEventView::ScanStopFailed) => (
            ScanPhase::Idle,
            ScanActionView::Fail { error: ScanError::ScanStopFailed },
        ),
        (ScanPhase::AwaitScanStart, ScanEventView::ScanStarted) => (
            ScanPhase::AwaitWindow,
            ScanActionView::AwaitWindow,
        ),
        (ScanPhase::AwaitScanStart, ScanEventView::ScanStartFailed) => (
            ScanPhase::Idle,
            ScanActionView::Fail { error: ScanError::ScanStartFailed },
        ),
        (ScanPhase::AwaitWindow, ScanEventView::WindowElapsed { observations }) => (
            ScanPhase::Idle,
            if spec_fetch_failed(observations) {
                ScanActionView::Fail { error: ScanError::PropertiesUnavailable }
            } else {
                ScanActionView::Deliver { devices: spec_clipboard_devices(observations) }
            },
        ),
        // Unreachable under `spec_scan_accepts`; any fixed value serves.
        _ => (phase, ScanActionView::Fail { error: ScanError::NoAdapter }),
    }
}

/// Drives one time-boxed discovery scan; the shell performs the radio
/// calls it asks for and feeds their outcomes back in.
pub struct ScanFlow {
    phase: ScanPhase,
}

impl ScanFlow {
    /// Where the scan stands.
    pub closed spec fn phase(&self) -> ScanPhase {
        self.phase
    }

    /// A scan not yet begun.
    pub fn new() -> (r: ScanFlow)
        ensures
            r.phase() is Idle,
    {
        ScanFlow { phase: ScanPhase::Idle }
    }

    /// Whether an event is the outcome the scan is awaiting; the shell
    /// may guard [`Self::scan_step`] with this.
    pub fn accepts(&self, event: &ScanEvent) -> (r: bool)
        ensures
            r == spec_scan_accepts(self.phase(), event@),
    {
        match (self.phase, event) {
            (ScanPhase::AwaitAdapter, ScanEvent::AdapterReady) => true,
            (ScanPhase::AwaitAdapter, ScanEvent::AdapterMissing) => true,
            (ScanPhase::AwaitScanStop, ScanEvent::ScanStopped) => true,
            (ScanPhase::AwaitScanStop, ScanEvent::ScanStopFailed) => true,
            (ScanPhase::AwaitScanStart, ScanEvent::ScanStarted) => true,
            (ScanPhase::AwaitScanStart, ScanEvent::ScanStartFailed) => true,
            (ScanPhase::AwaitWindow, ScanEvent::WindowElapsed { .. }) => true,
            _ => false,
        }
    }

    /// Begins a scan, abandoning any already in flight.
    pub fn begin_scan(&mut self) -> (r: ScanAction)
        ensures
            final(self).phase() is AwaitAdapter,
            r@ == ScanActionView::RequestAdapter,
    {
        self.phase = ScanPhase::AwaitAdapter;
        ScanAction::RequestAdapter
    }

    /// Feeds the outcome of the awaited radio call into the scan and
    /// returns what the shell must do next.  The step taken is exactly
    /// [`spec_scan_step`].
    pub fn scan_step(&mut self, event: ScanEvent) -> (r: ScanAction)
        requires
            spec_scan_accepts(old(self).phase(), event@),
        ensures
            final(self).phase() == spec_scan_step(old(self).phase(), event@).0,
            r@ == spec_scan_step(old(self).phase(), event@).1,
    {
        match (self.phase, event) {
            (ScanPhase::AwaitAdapter, ScanEvent::AdapterReady) => {
                self.phase = ScanPhase::AwaitScanStop;
                ScanAction::StopScan
            },
            (ScanPhase::AwaitAdapter, ScanEvent::AdapterMissing) => {
                self.phase = ScanPhase::Idle;
                ScanAction::Fail { error: ScanError::NoAdapter }
            },
            (ScanPhase::AwaitScanStop, ScanEvent::ScanStopped) => {
                self.phase = ScanPhase::AwaitScanStart;
                ScanAction::StartScan
            },
            (ScanPhase::AwaitScanStop, ScanEvent::ScanStopFailed) => {
                self.phase = ScanPhase::Idle;
                ScanAction::Fail { error: ScanError::ScanStopFailed }
            },
            (ScanPhase::AwaitScanStart, ScanEvent::ScanStarted) => {
                self.phase = ScanPhase::AwaitWindow;
                ScanAction::AwaitWindow
            },
            (ScanPhase::AwaitScanStart, ScanEvent::ScanStartFailed) => {
                self.phase = ScanPhase::Idle;
                ScanAction::Fail { error: ScanError::ScanStartFailed }
            },
            (ScanPhase::AwaitWindow, ScanEvent::WindowElapsed { observations }) => {
                self.phase = ScanPhase::Idle;
                match collate_scan(&observations) {
                    Ok(devices) => ScanAction::Deliver { devices },
                    Err(error) => ScanAction::Fail { error },
                }
            },
            (_, _) => vstd::pervasive::unreached(),
        }
    }
}

/// Law (filter correctness): every device record a scan produces comes
/// from an observed peripheral whose advertised service set contains the
/// clipboard service identifier; a scan never returns any other device.
pub proof fn lemma_scan_filter(observations: Seq<PeripheralObservation>)
    ensures
        forall|k: int|
            #![trigger spec_clipboard_devices(observations)[k]]
            0 <= k < spec_clipboard_devices(observations).len() ==> exists|i: int|
                0 <= i < observations.len() && spec_observation_device(#[trigger] observations[i])
                    == Some(spec_clipboard_devices(observations)[k]),
    decreases observations.len(),
{
    if observations.len() > 0 {
        let front = observations.drop_last();
        lemma_scan_filter(front);
        let devices = spec_clipboard_devices(observations);
        let front_devices = spec_clipboard_devices(front);
        assert forall|k: int|
            #![trigger devices[k]]
            0 <= k < devices.len() implies exists|i: int|
            0 <= i < observations.len() && spec_observation_device(#[trigger] observations[i])
                == Some(devices[k]) by {
            if k < front_devices.len() {
                let i = choose|i: int|
                    0 <= i < front.len() && spec_observation_device(#[trigger] front[i]) == Some(
                        front_devices[k],
                    );
                assert(observations[i] == front[i]);
                assert(devices[k] == front_devices[k]);
            } else {
                let i = observations.len() - 1;
                assert(spec_observation_device(observations[i]) == Some(devices[k]));
            }
        }
    }
}

} // verus!
