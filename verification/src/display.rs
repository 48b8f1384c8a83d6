//! The display sharing resolver: the bind rules and environment overrides
//! that let the sandboxed process reach the Wayland or X11 display of the
//! host.

use crate::ambient::{Ambient, AmbientVar, AmbientView};
use crate::error::LaunchError;
use crate::profile::{BindConfig, BindRule, Config, Profile};
use crate::text::concat3;
use crate::variables::Bindings;
use vstd::prelude::*;

verus! {

/// The directory that holds the sockets of the X11 displays.
pub const X11_SOCKET_DIR: &'static str = "/tmp/.X11-unix";

/// What display sharing adds to an invocation.
pub struct DisplayShare {
    /// Read-only binds of host paths to themselves, in emission order.
    pub binds: Vec<BindConfig>,
    /// Variables to set for the sandboxed process, in emission order.
    pub env: Vec<(String, String)>,
}

/// The mathematical view of a [`DisplayShare`].
pub struct DisplayShareView {
    pub binds: Seq<BindRule>,
    pub env: Bindings,
}

impl View for DisplayShare {
    type V = DisplayShareView;

    open spec fn view(&self) -> DisplayShareView {
        DisplayShareView { binds: self.binds.deep_view(), env: self.env.deep_view() }
    }
}

/// The read-only bind of a host path to the same path inside the sandbox.
pub open spec fn self_bind(path: Seq<char>) -> BindRule {
    BindRule { src: path, dest: path, no_fail: false, rw: false }
}

/// The path of the Wayland socket: the display name inside the runtime
/// directory.
pub open spec fn wayland_socket(runtime_dir: Seq<char>, display: Seq<char>) -> Seq<char> {
    runtime_dir + "/"@ + display
}

/// The ambient variable whose absence makes display sharing fail, if there is
/// one: Wayland sharing needs the runtime directory and the display name, in
/// that order. X11 sharing needs none.
pub open spec fn display_missing(profile: Profile, ambient: AmbientView) -> Option<AmbientVar> {
    if !profile.share_wayland {
        None
    } else if ambient.runtime_dir is None {
        Some(AmbientVar::RuntimeDir)
    } else if ambient.wayland_display is None {
        Some(AmbientVar::WaylandDisplay)
    } else {
        None
    }
}

/// The binds that Wayland sharing adds: the socket, bound to itself.
pub open spec fn wayland_binds(profile: Profile, ambient: AmbientView) -> Seq<BindRule> {
    if profile.share_wayland && ambient.runtime_dir is Some && ambient.wayland_display is Some {
        seq![
            self_bind(wayland_socket(ambient.runtime_dir->0, ambient.wayland_display->0)),
        ]
    } else {
        Seq::empty()
    }
}

/// The variables that Wayland sharing sets: the display name and the runtime
/// directory, with the values the host holds.
pub open spec fn wayland_env(profile: Profile, ambient: AmbientView) -> Bindings {
    if profile.share_wayland && ambient.runtime_dir is Some && ambient.wayland_display is Some {
        seq![
            (AmbientVar::WaylandDisplay.spec_name(), ambient.wayland_display->0),
            (AmbientVar::RuntimeDir.spec_name(), ambient.runtime_dir->0),
        ]
    } else {
        Seq::empty()
    }
}

/// The binds that X11 sharing adds: the socket directory, and the X
/// authority file when the host names one, each bound to itself.
pub open spec fn x11_binds(profile: Profile, ambient: AmbientView) -> Seq<BindRule> {
    if !profile.share_x11 {
        Seq::empty()
    } else if ambient.xauthority is Some {
        seq![self_bind(X11_SOCKET_DIR@), self_bind(ambient.xauthority->0)]
    } else {
        seq![self_bind(X11_SOCKET_DIR@)]
    }
}

/// The variables that X11 sharing sets: the X authority path, when the host
/// names one.
pub open spec fn x11_env(profile: Profile, ambient: AmbientView) -> Bindings {
    if profile.share_x11 && ambient.xauthority is Some {
        seq![(AmbientVar::XAuthority.spec_name(), ambient.xauthority->0)]
    } else {
        Seq::empty()
    }
}

/// All binds of display sharing: those of Wayland, then those of X11.
pub open spec fn display_binds(profile: Profile, ambient: AmbientView) -> Seq<BindRule> {
    wayland_binds(profile, ambient) + x11_binds(profile, ambient)
}

/// All variables of display sharing: those of Wayland, then those of X11.
pub open spec fn display_env(profile: Profile, ambient: AmbientView) -> Bindings {
    wayland_env(profile, ambient) + x11_env(profile, ambient)
}

fn self_bind_of(path: &str) -> (rule: BindConfig)
    ensures
        rule@ == self_bind(path@),
{
    BindConfig { src: path.to_owned(), dest: path.to_owned(), no_fail: false, rw: false }
}

/// Resolves what display sharing adds to the invocation of a profile.
///
/// Wayland sharing fails when the runtime directory or the display name is
/// absent from the environment. X11 sharing never fails: without an X
/// authority path only the socket directory is bound.
pub fn resolve_display(profile: &Config, ambient: &Ambient) -> (resolved: Result<
    DisplayShare,
    LaunchError,
>)
    ensures
        match resolved {
            Ok(share) => {
                &&& display_missing(profile@, ambient@) is None
                &&& share@.binds == display_binds(profile@, ambient@)
                &&& share@.env == display_env(profile@, ambient@)
            },
            Err(error) => {
                &&& display_missing(profile@, ambient@) matches Some(var)
                &&& error == LaunchError::MissingEnvironment(var)
            },
        },
{
    let mut binds: Vec<BindConfig> = Vec::new();
    let mut env: Vec<(String, String)> = Vec::new();
    if profile.share_wayland {
        let runtime_dir = match ambient.require(AmbientVar::RuntimeDir) {
            Ok(dir) => dir,
            Err(error) => {
                return Err(error);
            },
        };
        let display = match ambient.require(AmbientVar::WaylandDisplay) {
            Ok(name) => name,
            Err(error) => {
                return Err(error);
            },
        };
        let socket = concat3(runtime_dir, "/", display);
        binds.push(self_bind_of(socket.as_str()));
        env.push((AmbientVar::WaylandDisplay.name().to_owned(), display.to_owned()));
        env.push((AmbientVar::RuntimeDir.name().to_owned(), runtime_dir.to_owned()));
    }
    assert(binds.deep_view() =~= wayland_binds(profile@, ambient@));
    assert(env.deep_view() =~= wayland_env(profile@, ambient@));
    if profile.share_x11 {
        binds.push(self_bind_of(X11_SOCKET_DIR));
        match ambient.get(AmbientVar::XAuthority) {
            Some(path) => {
                binds.push(self_bind_of(path));
                env.push((AmbientVar::XAuthority.name().to_owned(), path.to_owned()));
            },
            None => {},
        }
    }
    assert(binds.deep_view() =~= display_binds(profile@, ambient@));
    assert(env.deep_view() =~= display_env(profile@, ambient@));
    Ok(DisplayShare { binds, env })
}

} // verus!
