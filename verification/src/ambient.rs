//! The ambient environment: the variables of the host process that the
//! compiler consults, captured once so that compilation is a function of a
//! profile and a snapshot.

use crate::error::LaunchError;
use vstd::prelude::*;

verus! {

/// The host environment variables that compilation may consult.
#[derive(Clone, Copy, Debug, PartialEq, Eq, Structural)]
pub enum AmbientVar {
    /// The per-user runtime directory.
    RuntimeDir,
    /// The name of the Wayland display socket inside the runtime directory.
    WaylandDisplay,
    /// The path of the X authority file.
    XAuthority,
    /// The address of the session message bus.
    BusAddress,
}

impl AmbientVar {
    /// The name under which the variable is known to the host environment.
    pub open spec fn spec_name(self) -> Seq<char> {
        match self {
            AmbientVar::RuntimeDir => "XDG_RUNTIME_DIR"@,
            AmbientVar::WaylandDisplay => "WAYLAND_DISPLAY"@,
            AmbientVar::XAuthority => "XAUTHORITY"@,
            AmbientVar::BusAddress => "DBUS_SESSION_BUS_ADDRESS"@,
        }
    }

    /// The name under which the variable is known to the host environment.
    pub fn name(&self) -> (name: &'static str)
        ensures
            name@ == self.spec_name(),
    {
        match self {
            AmbientVar::RuntimeDir => "XDG_RUNTIME_DIR",
            AmbientVar::WaylandDisplay => "WAYLAND_DISPLAY",
            AmbientVar::XAuthority => "XAUTHORITY",
            AmbientVar::BusAddress => "DBUS_SESSION_BUS_ADDRESS",
        }
    }
}

/// A snapshot of the ambient environment. A field is `None` when the host
/// environment does not hold the variable.
#[derive(Clone, Debug, PartialEq, Eq)]
pub struct Ambient {
    pub runtime_dir: Option<String>,
    pub wayland_display: Option<String>,
    pub xauthority: Option<String>,
    pub bus_address: Option<String>,
}

/// The mathematical view of an [`Ambient`] snapshot.
pub struct AmbientView {
    pub runtime_dir: Option<Seq<char>>,
    pub wayland_display: Option<Seq<char>>,
    pub xauthority: Option<Seq<char>>,
    pub bus_address: Option<Seq<char>>,
}

impl AmbientView {
    /// The value the snapshot holds for a variable.
    pub open spec fn get(self, var: AmbientVar) -> Option<Seq<char>> {
        match var {
            AmbientVar::RuntimeDir => self.runtime_dir,
            AmbientVar::WaylandDisplay => self.wayland_display,
            AmbientVar::XAuthority => self.xauthority,
            AmbientVar::BusAddress => self.bus_address,
        }
    }
}

impl View for Ambient {
    type V = AmbientView;

    open spec fn view(&self) -> AmbientView {
        AmbientView {
            runtime_dir: self.runtime_dir.deep_view(),
            wayland_display: self.wayland_display.deep_view(),
            xauthority: self.xauthority.deep_view(),
            bus_address: self.bus_address.deep_view(),
        }
    }
}

impl Ambient {
    /// The snapshot of an environment that holds none of the variables.
    pub fn empty() -> (ambient: Ambient)
        ensures
            ambient@ == (AmbientView {
                runtime_dir: None,
                wayland_display: None,
                xauthority: None,
                bus_address: None,
            }),
    {
        Ambient { runtime_dir: None, wayland_display: None, xauthority: None, bus_address: None }
    }

    /// The value the snapshot holds for a variable.
    pub fn get(&self, var: AmbientVar) -> (value: Option<&str>)
        ensures
            value.deep_view() == self@.get(var),
    {
        let field = match var {
            AmbientVar::RuntimeDir => &self.runtime_dir,
            AmbientVar::WaylandDisplay => &self.wayland_display,
            AmbientVar::XAuthority => &self.xauthority,
            AmbientVar::BusAddress => &self.bus_address,
        };
        match field {
            Some(text) => Some(text.as_str()),
            None => None,
        }
    }

    /// The value of a variable that cannot be done without: its absence is
    /// the failure that names it.
    pub fn require(&self, var: AmbientVar) -> (value: Result<&str, LaunchError>)
        ensures
            match value {
                Ok(text) => self@.get(var) == Some(text@),
                Err(error) => self@.get(var) is None && error == LaunchError::MissingEnvironment(
                    var,
                ),
            },
    {
        match self.get(var) {
            Some(text) => Ok(text),
            None => Err(LaunchError::MissingEnvironment(var)),
        }
    }
}

} // verus!
