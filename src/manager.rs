//! Backend selection: read once from the environment, fixed afterwards.

use crate::text::same_text;
use vstd::prelude::*;
use vstd::string::*;

verus! {

/// What the environment says, read once at startup.
#[derive(Clone, Copy, Debug, PartialEq, Eq, Structural)]
pub struct EnvironmentProfile {
    /// The session runs on a Wayland display server.
    pub wayland: bool,
    /// Clipboard access is allowed while the window is not focused.
    pub background_access: bool,
}

/// The flag value that enables background access.
pub open spec fn enables_background(value: Option<String>) -> bool {
    value matches Some(v) && v@ == "1"@
}

impl EnvironmentProfile {
    /// The profile for the values of the display-server indicator
    /// (`WAYLAND_DISPLAY`) and of the background-access flag
    /// (`COSMIC_DATA_CONTROL_ENABLED`), `None` where a variable is unset.
    /// Any value of the indicator means Wayland; only `"1"` enables the flag.
    pub fn from_values(wayland_display: Option<String>, data_control: Option<String>) -> (r: Self)
        ensures
            r.wayland == wayland_display is Some,
            r.background_access == enables_background(data_control),
    {
        let background_access = match &data_control {
            Some(v) => same_text(v.as_str(), "1"),
            None => false,
        };
        EnvironmentProfile { wayland: wayland_display.is_some(), background_access }
    }
}

/// The clipboard backend of a session.
#[derive(Clone, Copy, Debug, PartialEq, Eq, Structural)]
pub enum Backend {
    /// A native clipboard handle, created lazily and retried (X11).
    Native,
    /// The `wl-paste` / `wl-copy` utilities, one process per call (Wayland).
    Subprocess,
}

/// What reinitializing the clipboard takes.
#[derive(Clone, Copy, Debug, PartialEq, Eq, Structural)]
pub enum ReinitPlan {
    /// Nothing: there is no handle; reinitializing succeeds at once.
    Nothing,
    /// Drop the native handle and create a new one, reporting a creation error.
    RecreateHandle,
}

/// The backend for a profile.
pub open spec fn backend_for(profile: EnvironmentProfile) -> Backend {
    if profile.wayland {
        Backend::Subprocess
    } else {
        Backend::Native
    }
}

/// The clipboard of a session: one backend, chosen at construction.
pub struct ClipboardManager {
    backend: Backend,
    profile: EnvironmentProfile,
}

impl ClipboardManager {
    pub closed spec fn spec_backend(&self) -> Backend {
        self.backend
    }

    pub closed spec fn spec_profile(&self) -> EnvironmentProfile {
        self.profile
    }

    /// The manager for `profile`: the subprocess backend on Wayland, the
    /// native one elsewhere.
    pub fn new(profile: EnvironmentProfile) -> (r: Self)
        ensures
            r.spec_profile() == profile,
            r.spec_backend() == backend_for(profile),
    {
        let backend = if profile.wayland {
            Backend::Subprocess
        } else {
            Backend::Native
        };
        ClipboardManager { backend, profile }
    }

    /// The backend chosen at construction.
    pub fn backend(&self) -> (r: Backend)
        ensures
            r == self.spec_backend(),
    {
        self.backend
    }

    /// Whether the session runs on Wayland.
    pub fn is_wayland(&self) -> (r: bool)
        ensures
            r == self.spec_profile().wayland,
    {
        self.profile.wayland
    }

    /// Whether clipboard access is allowed while the window is not focused.
    pub fn is_background_access_enabled(&self) -> (r: bool)
        ensures
            r == self.spec_profile().background_access,
    {
        self.profile.background_access
    }

    /// What reinitializing takes: nothing for the subprocess backend, a new
    /// handle for the native one.
    pub fn reinitialize_plan(&self) -> (r: ReinitPlan)
        ensures
            self.spec_backend() == Backend::Subprocess ==> r == ReinitPlan::Nothing,
            self.spec_backend() == Backend::Native ==> r == ReinitPlan::RecreateHandle,
    {
        match self.backend {
            Backend::Subprocess => ReinitPlan::Nothing,
            Backend::Native => ReinitPlan::RecreateHandle,
        }
    }
}

} // verus!
