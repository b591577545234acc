//! The session manager: a state machine for the connect sequence and
//! the planning of sends over the stored connection.
//!
//! The manager owns at most one live session.  A connect attempt runs
//! `Disconnected -> Connecting -> ServiceResolution -> (Subscribing) ->
//! Connected`: every decision of that chain is taken here, while the
//! awaited radio calls themselves are performed by the unverified shell,
//! which obeys the returned [`ConnectAction`] and feeds the call's
//! outcome back in as a [`ConnectEvent`].  Any failure in the chain
//! discards the partially built attempt and leaves the stored session
//! exactly as it was; only a completed attempt replaces it
//! (last-connect-wins, with no intermediate disconnect step).

use vstd::prelude::*;

use crate::errors::{ConnectError, ConnectErrorView, SendError, SendErrorView};
use crate::gatt::{
    resolve_clipboard_characteristic, spec_resolve, CharacteristicInfo, Resolution, ResolutionView,
    ServiceInfo,
};

verus! {

/// The single live connection: the shell's opaque handle for the
/// connected peripheral, the clipboard characteristic resolved at
/// connect time, and whether change notifications were subscribed.
#[derive(Clone, Copy, Debug, PartialEq, Eq, Structural)]
pub struct Session {
    pub peripheral: u64,
    pub characteristic: CharacteristicInfo,
    pub subscribed: bool,
}

/// One peripheral seen in the targeted scan window: the shell's opaque
/// handle for it and its platform-stable address.
#[derive(Clone, Debug, PartialEq)]
pub struct DiscoveredPeripheral {
    pub handle: u64,
    pub address: String,
}

/// Where a connect attempt stands; `Idle` when none is in progress.
#[derive(Debug, PartialEq)]
pub enum ConnectPhase {
    Idle,
    AwaitAdapter { target: String },
    AwaitScanStart { target: String },
    AwaitScanWindow { target: String },
    AwaitConnection { handle: u64 },
    AwaitDiscovery { handle: u64 },
    AwaitSubscription { handle: u64, characteristic: CharacteristicInfo },
}

/// Spec-level value of a [`ConnectPhase`].
pub enum ConnectPhaseView {
    Idle,
    AwaitAdapter { target: Seq<char> },
    AwaitScanStart { target: Seq<char> },
    AwaitScanWindow { target: Seq<char> },
    AwaitConnection { handle: u64 },
    AwaitDiscovery { handle: u64 },
    AwaitSubscription { handle: u64, characteristic: CharacteristicInfo },
}

impl View for ConnectPhase {
    type V = ConnectPhaseView;

    open spec fn view(&self) -> ConnectPhaseView {
        match self {
            ConnectPhase::Idle => ConnectPhaseView::Idle,
            ConnectPhase::AwaitAdapter { target } => ConnectPhaseView::AwaitAdapter {
                target: target@,
            },
            ConnectPhase::AwaitScanStart { target } => ConnectPhaseView::AwaitScanStart {
                target: target@,
            },
            ConnectPhase::AwaitScanWindow { target } => ConnectPhaseView::AwaitScanWindow {
                target: target@,
            },
            ConnectPhase::AwaitConnection { handle } => ConnectPhaseView::AwaitConnection {
                handle: *handle,
            },
            ConnectPhase::AwaitDiscovery { handle } => ConnectPhaseView::AwaitDiscovery {
                handle: *handle,
            },
            ConnectPhase::AwaitSubscription { handle, characteristic } => {
                ConnectPhaseView::AwaitSubscription {
                    handle: *handle,
                    characteristic: *characteristic,
                }
            },
        }
    }
}

/// The outcome of one awaited radio call, fed back into the attempt.
#[derive(Debug, PartialEq)]
pub enum ConnectEvent {
    /// An adapter was obtained.
    AdapterReady,
    /// No Bluetooth adapter exists.
    AdapterMissing,
    /// The targeted scan started.
    ScanStarted,
    /// The targeted scan could not start.
    ScanStartFailed,
    /// The scan window elapsed; these peripherals were enumerated.
    WindowElapsed { peripherals: Vec<DiscoveredPeripheral> },
    /// The physical connection was established.
    ConnectSucceeded,
    /// The transport failed to connect.
    ConnectFailed,
    /// GATT discovery finished with this service list.
    ServicesDiscovered { services: Vec<ServiceInfo> },
    /// GATT discovery failed.
    DiscoveryFailed,
    /// The notification subscription was established.
    SubscribeSucceeded,
    /// The notification subscription failed.
    SubscribeFailed,
}

/// Spec-level value of a [`ConnectEvent`].
pub enum ConnectEventView {
    AdapterReady,
    AdapterMissing,
    ScanStarted,
    ScanStartFailed,
    WindowElapsed { peripherals: Seq<DiscoveredPeripheral> },
    ConnectSucceeded,
    ConnectFailed,
    ServicesDiscovered { services: Seq<ServiceInfo> },
    DiscoveryFailed,
    SubscribeSucceeded,
    SubscribeFailed,
}

impl View for ConnectEvent {
    type V = ConnectEventView;

    open spec fn view(&self) -> ConnectEventView {
        match self {
            ConnectEvent::AdapterReady => ConnectEventView::AdapterReady,
            ConnectEvent::AdapterMissing => ConnectEventView::AdapterMissing,
            ConnectEvent::ScanStarted => ConnectEventView::ScanStarted,
            ConnectEvent::ScanStartFailed => ConnectEventView::ScanStartFailed,
            ConnectEvent::WindowElapsed { peripherals } => ConnectEventView::WindowElapsed {
                peripherals: peripherals@,
            },
            ConnectEvent::ConnectSucceeded => ConnectEventView::ConnectSucceeded,
            ConnectEvent::ConnectFailed => ConnectEventView::ConnectFailed,
            ConnectEvent::ServicesDiscovered { services } => ConnectEventView::ServicesDiscovered {
                services: services@,
            },
            ConnectEvent::DiscoveryFailed => ConnectEventView::DiscoveryFailed,
            ConnectEvent::SubscribeSucceeded => ConnectEventView::SubscribeSucceeded,
            ConnectEvent::SubscribeFailed => ConnectEventView::SubscribeFailed,
        }
    }
}

/// What the shell must do next for a connect attempt.
#[derive(Debug, PartialEq)]
pub enum ConnectAction {
    /// Obtain the Bluetooth adapter.
    RequestAdapter,
    /// Start an unfiltered scan.
    StartScan,
    /// Let the fixed scan window elapse, then enumerate peripherals.
    AwaitWindow,
    /// Physically connect to this peripheral.
    Connect { handle: u64 },
    /// Discover all GATT services on the connection.
    DiscoverServices { handle: u64 },
    /// Subscribe to change notifications on this characteristic.
    Subscribe { handle: u64, characteristic: CharacteristicInfo },
    /// The attempt completed; the session is stored.
    Complete,
    /// The attempt failed; nothing was stored.
    Fail { error: ConnectError },
}

/// Spec-level value of a [`ConnectAction`].
pub enum ConnectActionView {
    RequestAdapter,
    StartScan,
    AwaitWindow,
    Connect { handle: u64 },
    DiscoverServices { handle: u64 },
    Subscribe { handle: u64, characteristic: CharacteristicInfo },
    Complete,
    Fail { error: ConnectErrorView },
}

impl View for ConnectAction {
    type V = ConnectActionView;

    open spec fn view(&self) -> ConnectActionView {
        match self {
            ConnectAction::RequestAdapter => ConnectActionView::RequestAdapter,
            ConnectAction::StartScan => ConnectActionView::StartScan,
            ConnectAction::AwaitWindow => ConnectActionView::AwaitWindow,
            ConnectAction::Connect { handle } => ConnectActionView::Connect { handle: *handle },
            ConnectAction::DiscoverServices { handle } => ConnectActionView::DiscoverServices {
                handle: *handle,
            },
            ConnectAction::Subscribe { handle, characteristic } => ConnectActionView::Subscribe {
                handle: *handle,
                characteristic: *characteristic,
            },
            ConnectAction::Complete => ConnectActionView::Complete,
            ConnectAction::Fail { error } => ConnectActionView::Fail { error: error@ },
        }
    }
}

/// The planned write of one send: the stored peripheral, the freshly
/// re-resolved characteristic, and the fire-and-forget write mode (no
/// acknowledgement is awaited from the peripheral).
#[derive(Clone, Copy, Debug, PartialEq, Eq, Structural)]
pub struct WriteCommand {
    pub peripheral: u64,
    pub characteristic: CharacteristicInfo,
    pub without_response: bool,
}

/// The session manager.  The session it owns is the only state shared
/// between operations; the shell serializes access to it.
pub struct SessionManager {
    session: Option<Session>,
    phase: ConnectPhase,
}

/// Spec-level value of a [`SessionManager`].
pub struct SessionManagerView {
    pub session: Option<Session>,
    pub phase: ConnectPhaseView,
}

impl View for SessionManager {
    type V = SessionManagerView;

    closed spec fn view(&self) -> SessionManagerView {
        SessionManagerView { session: self.session, phase: self.phase@ }
    }
}

/// The handle of the first enumerated peripheral whose address equals
/// the target exactly, if any.
pub open spec fn spec_first_matching_handle(
    peripherals: Seq<DiscoveredPeripheral>,
    target: Seq<char>,
) -> Option<u64>
    decreases peripherals.len(),
{
    if peripherals.len() == 0 {
        None
    } else if peripherals[0].address@ == target {
        Some(peripherals[0].handle)
    } else {
        spec_first_matching_handle(peripherals.drop_first(), target)
    }
}

/// Whether an event is the outcome the phase is awaiting.
pub open spec fn spec_accepts(phase: ConnectPhaseView, event: ConnectEventView) -> bool {
    match (phase, event) {
        (ConnectPhaseView::AwaitAdapter { .. }, ConnectEventView::AdapterReady) => true,
        (ConnectPhaseView::AwaitAdapter { .. }, ConnectEventView::AdapterMissing) => true,
        (ConnectPhaseView::AwaitScanStart { .. }, ConnectEventView::ScanStarted) => true,
        (ConnectPhaseView::AwaitScanStart { .. }, ConnectEventView::ScanStartFailed) => true,
        (ConnectPhaseView::AwaitScanWindow { .. }, ConnectEventView::WindowElapsed { .. }) => true,
        (ConnectPhaseView::AwaitConnection { .. }, ConnectEventView::ConnectSucceeded) => true,
        (ConnectPhaseView::AwaitConnection { .. }, ConnectEventView::ConnectFailed) => true,
        (ConnectPhaseView::AwaitDiscovery { .. }, ConnectEventView::ServicesDiscovered { .. }) => {
            true
        },
        (ConnectPhaseView::AwaitDiscovery { .. }, ConnectEventView::DiscoveryFailed) => true,
        (
            ConnectPhaseView::AwaitSubscription { .. },
            ConnectEventView::SubscribeSucceeded,
        ) => true,
        (ConnectPhaseView::AwaitSubscription { .. }, ConnectEventView::SubscribeFailed) => true,
        _ => false,
    }
}

/// One step of the connect state machine: the manager after the event
/// and the action the shell must take next.
pub struct ConnectStep {
    pub state: SessionManagerView,
    pub action: ConnectActionView,
}

/// A failing step: the attempt is discarded, the session stays as it
/// was, and the error is surfaced.
pub open spec fn spec_fail(m: SessionManagerView, error: ConnectErrorView) -> ConnectStep {
    ConnectStep {
        state: SessionManagerView { session: m.session, phase: ConnectPhaseView::Idle },
        action: ConnectActionView::Fail { error },
    }
}

/// The connect state machine: what one event does to the manager and
/// what the shell must do next.  Only the two completing steps touch the
/// stored session.
pub open spec fn spec_connect_step(m: SessionManagerView, event: ConnectEventView) -> ConnectStep {
    match (m.phase, event) {
        (ConnectPhaseView::AwaitAdapter { target }, ConnectEventView::AdapterReady) => ConnectStep {
            state: SessionManagerView {
                session: m.session,
                phase: ConnectPhaseView::AwaitScanStart { target },
            },
            action: ConnectActionView::StartScan,
        },
        (ConnectPhaseView::AwaitAdapter { .. }, ConnectEventView::AdapterMissing) => spec_fail(
            m,
            ConnectErrorView::NoAdapter,
        ),
        (ConnectPhaseView::AwaitScanStart { target }, ConnectEventView::ScanStarted) => ConnectStep {
            state: SessionManagerView {
                session: m.session,
                phase: ConnectPhaseView::AwaitScanWindow { target },
            },
            action: ConnectActionView::AwaitWindow,
        },
        (ConnectPhaseView::AwaitScanStart { .. }, ConnectEventView::ScanStartFailed) => spec_fail(
            m,
            ConnectErrorView::ScanStartFailed,
        ),
        (
            ConnectPhaseView::AwaitScanWindow { target },
            ConnectEventView::WindowElapsed { peripherals },
        ) => match spec_first_matching_handle(peripherals, target) {
            Some(handle) => ConnectStep {
                state: SessionManagerView {
                    session: m.session,
                    phase: ConnectPhaseView::AwaitConnection { handle },
                },
                action: ConnectActionView::Connect { handle },
            },
            None => spec_fail(m, ConnectErrorView::DeviceNotFound),
        },
        (ConnectPhaseView::AwaitConnection { handle }, ConnectEventView::ConnectSucceeded) => {
            ConnectStep {
                state: SessionManagerView {
                    session: m.session,
                    phase: ConnectPhaseView::AwaitDiscovery { handle },
                },
                action: ConnectActionView::DiscoverServices { handle },
            }
        },
        (ConnectPhaseView::AwaitConnection { .. }, ConnectEventView::ConnectFailed) => spec_fail(
            m,
            ConnectErrorView::ConnectFailed,
        ),
        (
            ConnectPhaseView::AwaitDiscovery { handle },
            ConnectEventView::ServicesDiscovered { services },
        ) => match spec_resolve(services) {
            ResolutionView::NoService { available } => spec_fail(
                m,
                ConnectErrorView::ServiceNotFound { available },
            ),
            ResolutionView::NoCharacteristic { available } => spec_fail(
                m,
                ConnectErrorView::CharacteristicNotFound { available },
            ),
            ResolutionView::Found { characteristic } => if characteristic.supports_notify {
                ConnectStep {
                    state: SessionManagerView {
                        session: m.session,
                        phase: ConnectPhaseView::AwaitSubscription { handle, characteristic },
                    },
                    action: ConnectActionView::Subscribe { handle, characteristic },
                }
            } else {
                ConnectStep {
                    state: SessionManagerView {
                        session: Some(
                            Session { peripheral: handle, characteristic, subscribed: false },
                        ),
                        phase: ConnectPhaseView::Idle,
                    },
                    action: ConnectActionView::Complete,
                }
            },
        },
        (ConnectPhaseView::AwaitDiscovery { .. }, ConnectEventView::DiscoveryFailed) => spec_fail(
            m,
            ConnectErrorView::ServiceDiscoveryFailed,
        ),
        (
            ConnectPhaseView::AwaitSubscription { handle, characteristic },
            ConnectEventView::SubscribeSucceeded,
        ) => ConnectStep {
            state: SessionManagerView {
                session: Some(Session { peripheral: handle, characteristic, subscribed: true }),
                phase: ConnectPhaseView::Idle,
            },
            action: ConnectActionView::Complete,
        },
        (ConnectPhaseView::AwaitSubscription { .. }, ConnectEventView::SubscribeFailed) => {
            spec_fail(m, ConnectErrorView::SubscribeFailed)
        },
        // Unreachable under `spec_accepts`; any fixed value serves.
        _ => spec_fail(m, ConnectErrorView::NoAdapter),
    }
}

/// The session a completing step installs, determined by the attempt
/// alone — never by whatever session was live before.
pub open spec fn spec_completed_session(
    phase: ConnectPhaseView,
    event: ConnectEventView,
) -> Option<Session> {
    match (phase, event) {
        (
            ConnectPhaseView::AwaitDiscovery { handle },
            ConnectEventView::ServicesDiscovered { services },
        ) => match spec_resolve(services) {
            ResolutionView::Found { characteristic } => if characteristic.supports_notify {
                None
            } else {
                Some(Session { peripheral: handle, characteristic, subscribed: false })
            },
            _ => None,
        },
        (
            ConnectPhaseView::AwaitSubscription { handle, characteristic },
            ConnectEventView::SubscribeSucceeded,
        ) => Some(Session { peripheral: handle, characteristic, subscribed: true }),
        _ => None,
    }
}

/// What planning a send yields: the write command, or the exact error —
/// `NotConnected` with no session, else the resolution failure against
/// the peripheral's current service list.
pub open spec fn spec_plan_send(session: Option<Session>, services: Seq<ServiceInfo>) -> Result<
    WriteCommand,
    SendErrorView,
> {
    match session {
        None => Err(SendErrorView::NotConnected),
        Some(live) => match spec_resolve(services) {
            ResolutionView::NoService { available } => Err(
                SendErrorView::ServiceNotFound { available },
            ),
            ResolutionView::NoCharacteristic { available } => Err(
                SendErrorView::CharacteristicNotFound { available },
            ),
            ResolutionView::Found { characteristic } => Ok(
                WriteCommand {
                    peripheral: live.peripheral,
                    characteristic,
                    without_response: true,
                },
            ),
        },
    }
}

/// The handle of the first enumerated peripheral whose address equals
/// the target, by exact string equality.
fn find_target_peripheral(peripherals: &Vec<DiscoveredPeripheral>, target: &String) -> (r: Option<
    u64,
>)
    ensures
        r == spec_first_matching_handle(peripherals@, target@),
{
    let total = peripherals.len();
    let mut i: usize = 0;
    proof {
        assert(peripherals@.skip(0) =~= peripherals@);
    }
    while i < total
        invariant
            i <= total,
            total == peripherals@.len(),
            spec_first_matching_handle(peripherals@, target@) == spec_first_matching_handle(
                peripherals@.skip(i as int),
                target@,
            ),
        decreases total - i,
    {
        if peripherals[i].address == *target {
            proof {
                assert(peripherals@.skip(i as int)[0] == peripherals@[i as int]);
            }
            return Some(peripherals[i].handle);
        }
        proof {
            assert(peripherals@.skip(i as int).drop_first() =~= peripherals@.skip(i as int + 1));
        }
        i = i + 1;
    }
    None
}

impl SessionManager {
    /// A manager with no session and no attempt in progress.
    pub fn new() -> (r: SessionManager)
        ensures
            r@.session is None,
            r@.phase is Idle,
    {
        SessionManager { session: None, phase: ConnectPhase::Idle }
    }

    /// The live session, if any.
    pub fn current_session(&self) -> (r: Option<Session>)
        ensures
            r == self@.session,
    {
        self.session
    }

    /// Whether an event is the outcome the manager is awaiting; the
    /// shell may guard [`Self::connect_step`] with this.
    pub fn accepts(&self, event: &ConnectEvent) -> (r: bool)
        ensures
            r == spec_accepts(self@.phase, event@),
    {
        match (&self.phase, event) {
            (ConnectPhase::AwaitAdapter { .. }, ConnectEvent::AdapterReady) => true,
            (ConnectPhase::AwaitAdapter { .. }, ConnectEvent::AdapterMissing) => true,
            (ConnectPhase::AwaitScanStart { .. }, ConnectEvent::ScanStarted) => true,
            (ConnectPhase::AwaitScanStart { .. }, ConnectEvent::ScanStartFailed) => true,
            (ConnectPhase::AwaitScanWindow { .. }, ConnectEvent::WindowElapsed { .. }) => true,
            (ConnectPhase::AwaitConnection { .. }, ConnectEvent::ConnectSucceeded) => true,
            (ConnectPhase::AwaitConnection { .. }, ConnectEvent::ConnectFailed) => true,
            (ConnectPhase::AwaitDiscovery { .. }, ConnectEvent::ServicesDiscovered { .. }) => true,
            (ConnectPhase::AwaitDiscovery { .. }, ConnectEvent::DiscoveryFailed) => true,
            (ConnectPhase::AwaitSubscription { .. }, ConnectEvent::SubscribeSucceeded) => true,
            (ConnectPhase::AwaitSubscription { .. }, ConnectEvent::SubscribeFailed) => true,
            _ => false,
        }
    }

    /// Starts a connect attempt toward the peripheral with this address,
    /// abandoning any attempt already in flight.  The stored session is
    /// not touched: it is replaced only when the new attempt completes.
    pub fn begin_connect(&mut self, target: String) -> (r: ConnectAction)
        ensures
            final(self)@.session == old(self)@.session,
            final(self)@.phase == (ConnectPhaseView::AwaitAdapter { target: target@ }),
            r@ == ConnectActionView::RequestAdapter,
    {
        self.phase = ConnectPhase::AwaitAdapter { target };
        ConnectAction::RequestAdapter
    }

    /// Feeds the outcome of the awaited radio call into the attempt and
    /// returns what the shell must do next.  The step taken is exactly
    /// [`spec_connect_step`].
    pub fn connect_step(&mut self, event: ConnectEvent) -> (r: ConnectAction)
        requires
            spec_accepts(old(self)@.phase, event@),
        ensures
            final(self)@ == spec_connect_step(old(self)@, event@).state,
            r@ == spec_connect_step(old(self)@, event@).action,
    {
        let mut phase = ConnectPhase::Idle;
        core::mem::swap(&mut phase, &mut self.phase);
        match (phase, event) {
            (ConnectPhase::AwaitAdapter { target }, ConnectEvent::AdapterReady) => {
                self.phase = ConnectPhase::AwaitScanStart { target };
                ConnectAction::StartScan
            },
            (ConnectPhase::AwaitAdapter { .. }, ConnectEvent::AdapterMissing) => {
                ConnectAction::Fail { error: ConnectError::NoAdapter }
            },
            (ConnectPhase::AwaitScanStart { target }, ConnectEvent::ScanStarted) => {
                self.phase = ConnectPhase::AwaitScanWindow { target };
                ConnectAction::AwaitWindow
            },
            (ConnectPhase::AwaitScanStart { .. }, ConnectEvent::ScanStartFailed) => {
                ConnectAction::Fail { error: ConnectError::ScanStartFailed }
            },
            (
                ConnectPhase::AwaitScanWindow { target },
                ConnectEvent::WindowElapsed { peripherals },
            ) => {
                match find_target_peripheral(&peripherals, &target) {
                    Some(handle) => {
                        self.phase = ConnectPhase::AwaitConnection { handle };
                        ConnectAction::Connect { handle }
                    },
                    None => ConnectAction::Fail { error: ConnectError::DeviceNotFound },
                }
            },
            (ConnectPhase::AwaitConnection { handle }, ConnectEvent::ConnectSucceeded) => {
                self.phase = ConnectPhase::AwaitDiscovery { handle };
                ConnectAction::DiscoverServices { handle }
            },
            (ConnectPhase::AwaitConnection { .. }, ConnectEvent::ConnectFailed) => {
                ConnectAction::Fail { error: ConnectError::ConnectFailed }
            },
            (
                ConnectPhase::AwaitDiscovery { handle },
                ConnectEvent::ServicesDiscovered { services },
            ) => {
                match resolve_clipboard_characteristic(&services) {
                    Resolution::NoService { available } => {
                        ConnectAction::Fail { error: ConnectError::ServiceNotFound { available } }
                    },
                    Resolution::NoCharacteristic { available } => {
                        ConnectAction::Fail {
                            error: ConnectError::CharacteristicNotFound { available },
                        }
                    },
                    Resolution::Found { characteristic } => {
                        if characteristic.supports_notify {
                            self.phase = ConnectPhase::AwaitSubscription { handle, characteristic };
                            ConnectAction::Subscribe { handle, characteristic }
                        } else {
                            self.session = Some(
                                Session { peripheral: handle, characteristic, subscribed: false },
                            );
                            ConnectAction::Complete
                        }
                    },
                }
            },
            (ConnectPhase::AwaitDiscovery { .. }, ConnectEvent::DiscoveryFailed) => {
                ConnectAction::Fail { error: ConnectError::ServiceDiscoveryFailed }
            },
            (
                ConnectPhase::AwaitSubscription { handle, characteristic },
                ConnectEvent::SubscribeSucceeded,
            ) => {
                self.session = Some(Session { peripheral: handle, characteristic, subscribed: true });
                ConnectAction::Complete
            },
            (ConnectPhase::AwaitSubscription { .. }, ConnectEvent::SubscribeFailed) => {
                ConnectAction::Fail { error: ConnectError::SubscribeFailed }
            },
            _ => vstd::pervasive::unreached(),
        }
    }

    /// Reads the current session at the start of a send.  With no live
    /// session the send fails `NotConnected` here, before the shell has
    /// performed any transport call: the radio is touched only on `Ok`.
    pub fn send_begin(&self) -> (r: Result<u64, SendError>)
        ensures
            match self@.session {
                Some(live) => r == Ok::<u64, SendError>(live.peripheral),
                None => r == Err::<u64, SendError>(SendError::NotConnected),
            },
    {
        match &self.session {
            Some(live) => Ok(live.peripheral),
            None => Err(SendError::NotConnected),
        }
    }

    /// Plans the write of one send: re-derives the clipboard service and
    /// characteristic from the stored peripheral's current service list
    /// (never from what connect time saw), and fixes the fire-and-forget
    /// write mode.
    pub fn plan_send(&self, services: &Vec<ServiceInfo>) -> (r: Result<WriteCommand, SendError>)
        ensures
            match r {
                Ok(command) => spec_plan_send(self@.session, services@) == Ok::<
                    _,
                    SendErrorView,
                >(command),
                Err(error) => spec_plan_send(self@.session, services@) == Err::<
                    WriteCommand,
                    _,
                >(error@),
            },
    {
        let live = match &self.session {
            Some(live) => *live,
            None => {
                return Err(SendError::NotConnected);
            },
        };
        match resolve_clipboard_characteristic(services) {
            Resolution::NoService { available } => Err(SendError::ServiceNotFound { available }),
            Resolution::NoCharacteristic { available } => Err(
                SendError::CharacteristicNotFound { available },
            ),
            Resolution::Found { characteristic } => Ok(
                WriteCommand { peripheral: live.peripheral, characteristic, without_response: true },
            ),
        }
    }
}

/// Maps the transport's outcome of the planned write to the send's
/// result: a transport error surfaces as `WriteFailed`, immediately and
/// untried again.
pub fn finish_send(write_ok: bool) -> (r: Result<(), SendError>)
    ensures
        write_ok <==> r is Ok,
        !write_ok ==> r == Err::<(), SendError>(SendError::WriteFailed),
{
    if write_ok {
        Ok(())
    } else {
        Err(SendError::WriteFailed)
    }
}

/// Law (single live session; last connect wins): a completing step
/// installs exactly the session its own attempt resolved —
/// [`spec_completed_session`] names it from the phase and event alone —
/// so whatever session was live before, a second completed connect
/// replaces it outright, and the manager never holds more than one.
pub proof fn lemma_last_connect_wins(m: SessionManagerView, event: ConnectEventView)
    requires
        spec_accepts(m.phase, event),
    ensures
        spec_connect_step(m, event).action is Complete <==> spec_completed_session(m.phase, event)
            is Some,
        spec_connect_step(m, event).action is Complete ==> spec_connect_step(m, event).state.session
            == spec_completed_session(m.phase, event),
{
}

/// Law (a later send is governed by the latest connect): after a
/// completing step over an already live session, planning a send against
/// the stored session writes to the peripheral the new attempt
/// connected, not to the one stored before.
pub proof fn lemma_second_connect_governs_send(
    m: SessionManagerView,
    event: ConnectEventView,
    services: Seq<ServiceInfo>,
)
    requires
        m.session is Some,
        spec_accepts(m.phase, event),
        spec_connect_step(m, event).action is Complete,
    ensures
        ({
            let installed = spec_completed_session(m.phase, event);
            &&& spec_connect_step(m, event).state.session == installed
            &&& forall|command: WriteCommand|
                spec_plan_send(spec_connect_step(m, event).state.session, services) == Ok::<
                    _,
                    SendErrorView,
                >(command) ==> command.peripheral == installed.unwrap().peripheral
        }),
{
    lemma_last_connect_wins(m, event);
}

/// Law (failed attempts preserve the session): every step of a connect
/// attempt other than a completing one — each failure, a device absent
/// from the scan window included — leaves the stored session exactly as
/// it was.
pub proof fn lemma_failure_preserves_session(m: SessionManagerView, event: ConnectEventView)
    requires
        spec_accepts(m.phase, event),
    ensures
        !(spec_connect_step(m, event).action is Complete) ==> spec_connect_step(
            m,
            event,
        ).state.session == m.session,
{
}

/// Law (diagnostic exactness): when discovery finds no clipboard
/// service, the attempt fails with `ServiceNotFound` reporting exactly
/// the service identifiers that were discovered, in discovery order, and
/// the stored session stays as it was.
pub proof fn lemma_service_not_found_reports_discovered(
    m: SessionManagerView,
    handle: u64,
    services: Seq<ServiceInfo>,
)
    requires
        m.phase == (ConnectPhaseView::AwaitDiscovery { handle }),
        crate::gatt::spec_find_clipboard_service(services) is None,
    ensures
        spec_connect_step(m, ConnectEventView::ServicesDiscovered { services }).action
            == (ConnectActionView::Fail {
            error: ConnectErrorView::ServiceNotFound {
                available: crate::gatt::spec_service_uuids(services),
            },
        }),
        spec_connect_step(m, ConnectEventView::ServicesDiscovered { services }).state.session
            == m.session,
{
}

} // verus!
