//! The advertising controller: the decisions behind starting and
//! stopping the broadcaster of the clipboard service.
//!
//! Broadcasting differs by host platform, so the capability is selected
//! once at startup as a variant rather than scattered through call
//! sites.  Where the platform has a broadcast role, the broadcaster is
//! an owned child process of the shell: this controller decides when one
//! must be launched and when a prior one must be stopped first, so that
//! no two advertisements ever run concurrently.  A platform without a
//! broadcast role refuses explicitly instead of silently doing nothing.

use vstd::prelude::*;

use crate::errors::AdvertiseError;

verus! {

/// The host's broadcast capability, selected once at startup.
#[derive(Clone, Copy, Debug, PartialEq, Eq, Structural)]
pub enum AdvertisingPlatform {
    /// A broadcaster sidecar process can be spawned and stopped.
    MacSidecar,
    /// The platform has a radio but no broadcast implementation yet; it
    /// reports itself unsupported rather than pretending to advertise.
    WindowsStub,
    /// No BLE broadcast role at all.
    Unsupported,
}

/// What the shell must do to obey a start decision.
#[derive(Clone, Debug, PartialEq)]
pub struct StartAdvertising {
    /// Stop the prior broadcaster first; true exactly when one was
    /// running, so that no two advertisements run concurrently.
    pub stop_prior: bool,
    /// The local name to broadcast, if any.
    pub name: Option<String>,
    /// The service identifier to broadcast, if any.
    pub service_uuid: Option<String>,
}

/// What the shell must do to obey a stop decision.
#[derive(Clone, Copy, Debug, PartialEq, Eq, Structural)]
pub struct StopAdvertising {
    /// Stop the running broadcaster; false when none was running, which
    /// is not an error.
    pub halt: bool,
}

/// Owns the "is a broadcaster running" state and takes every
/// advertising decision; the shell spawns and stops the process.
pub struct AdvertisingController {
    platform: AdvertisingPlatform,
    active: bool,
}

impl AdvertisingController {
    /// The capability this controller was selected for.
    pub closed spec fn platform(&self) -> AdvertisingPlatform {
        self.platform
    }

    /// Whether a broadcaster is currently running.
    pub closed spec fn is_active(&self) -> bool {
        self.active
    }

    /// A controller for the given capability, with no broadcaster
    /// running.
    pub fn new(platform: AdvertisingPlatform) -> (r: AdvertisingController)
        ensures
            r.platform() == platform,
            !r.is_active(),
    {
        AdvertisingController { platform, active: false }
    }

    /// Decides a start: where the platform can broadcast, any prior
    /// broadcaster is stopped first and a new one is launched with the
    /// given name and service identifier; elsewhere the request fails
    /// `PlatformUnsupported` and nothing changes.
    pub fn start_advertising(&mut self, name: Option<String>, service_uuid: Option<String>) -> (r:
        Result<StartAdvertising, AdvertiseError>)
        ensures
            final(self).platform() == old(self).platform(),
            match r {
                Ok(command) => old(self).platform() is MacSidecar && final(self).is_active()
                    && command.stop_prior == old(self).is_active() && command.name.deep_view()
                    == name.deep_view() && command.service_uuid.deep_view()
                    == service_uuid.deep_view(),
                Err(error) => !(old(self).platform() is MacSidecar) && error
                    == AdvertiseError::PlatformUnsupported && final(self).is_active() == old(
                    self,
                ).is_active(),
            },
    {
        match self.platform {
            AdvertisingPlatform::MacSidecar => {
                let stop_prior = self.active;
                self.active = true;
                Ok(StartAdvertising { stop_prior, name, service_uuid })
            },
            _ => Err(AdvertiseError::PlatformUnsupported),
        }
    }

    /// Decides a stop: where the platform can broadcast, the running
    /// broadcaster, if any, is stopped (the absence of one is not an
    /// error); elsewhere the request fails `PlatformUnsupported`.
    pub fn stop_advertising(&mut self) -> (r: Result<StopAdvertising, AdvertiseError>)
        ensures
            final(self).platform() == old(self).platform(),
            match r {
                Ok(command) => old(self).platform() is MacSidecar && !final(self).is_active()
                    && command == (StopAdvertising { halt: old(self).is_active() }),
                Err(error) => !(old(self).platform() is MacSidecar) && error
                    == AdvertiseError::PlatformUnsupported && final(self).is_active() == old(
                    self,
                ).is_active(),
            },
    {
        match self.platform {
            AdvertisingPlatform::MacSidecar => {
                let halt = self.active;
                self.active = false;
                Ok(StopAdvertising { halt })
            },
            _ => Err(AdvertiseError::PlatformUnsupported),
        }
    }
}

} // verus!
