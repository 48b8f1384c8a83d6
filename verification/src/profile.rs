//! The profile model: the declarative description of a sandbox.
//!
//! The executable types hold owned strings and optional lists, as they come
//! out of a profile document. Each has a mathematical view in which text is a
//! sequence of characters and an absent list is the empty list; the contracts
//! of the compiler speak of those views.

use vstd::prelude::*;

verus! {

/// The value every sharing flag takes when a profile does not mention it:
/// nothing is shared unless the profile asks for it.
pub fn default_false() -> (shared: bool)
    ensures
        !shared,
{
    false
}

/// One bind rule of a profile: a host path made visible inside the sandbox.
///
/// For a device bind the `rw` flag has no meaning; only `no_fail` applies.
pub struct BindConfig {
    pub src: String,
    pub dest: String,
    /// Tolerate a missing source instead of failing.
    pub no_fail: bool,
    /// Bind read-write instead of read-only.
    pub rw: bool,
}

/// The mathematical view of a [`BindConfig`].
pub struct BindRule {
    pub src: Seq<char>,
    pub dest: Seq<char>,
    pub no_fail: bool,
    pub rw: bool,
}

impl View for BindConfig {
    type V = BindRule;

    open spec fn view(&self) -> BindRule {
        BindRule { src: self.src@, dest: self.dest@, no_fail: self.no_fail, rw: self.rw }
    }
}

impl DeepView for BindConfig {
    type V = BindRule;

    open spec fn deep_view(&self) -> BindRule {
        self@
    }
}

impl BindConfig {
    /// A read-only bind rule that fails when its source is missing: the rule a
    /// profile describes when it names only the two paths.
    pub fn new(src: &str, dest: &str) -> (rule: BindConfig)
        ensures
            rule@ == (BindRule { src: src@, dest: dest@, no_fail: false, rw: false }),
    {
        BindConfig {
            src: src.to_owned(),
            dest: dest.to_owned(),
            no_fail: default_false(),
            rw: default_false(),
        }
    }
}

/// The allow-lists handed to the bus-filtering proxy. Both may be empty; the
/// presence of the configuration alone asks for the proxy.
pub struct DBusProxyConfig {
    /// Bus names the sandboxed process may own.
    pub own: Vec<String>,
    /// Bus names the sandboxed process may call.
    pub talk: Vec<String>,
}

/// The mathematical view of a [`DBusProxyConfig`].
pub struct BusFilter {
    pub own: Seq<Seq<char>>,
    pub talk: Seq<Seq<char>>,
}

impl View for DBusProxyConfig {
    type V = BusFilter;

    open spec fn view(&self) -> BusFilter {
        BusFilter { own: self.own.deep_view(), talk: self.talk.deep_view() }
    }
}

/// A sandbox profile as it is read from a profile document.
pub struct Config {
    pub bind: Option<Vec<BindConfig>>,
    pub dev_bind: Option<Vec<BindConfig>>,
    pub symlink: Option<Vec<(String, String)>>,
    /// Environment variables to set for the sandboxed process, in the order
    /// in which the profile lists them.
    pub env: Option<Vec<(String, String)>>,
    pub unset: Option<Vec<String>>,
    pub share_user: bool,
    pub share_ipc: bool,
    pub share_pid: bool,
    pub share_net: bool,
    pub share_uts: bool,
    pub share_cgroup: bool,
    pub share_wayland: bool,
    pub share_x11: bool,
    pub share_env: bool,
    pub keep_alive: bool,
    pub procfs: Option<String>,
    pub tmpfs: Option<Vec<String>>,
    pub uid: Option<u16>,
    pub gid: Option<u16>,
    pub hostname: Option<String>,
    pub dbus_proxy: Option<DBusProxyConfig>,
}

/// The mathematical view of a [`Config`]: an absent list is the empty list.
pub struct Profile {
    pub bind: Seq<BindRule>,
    pub dev_bind: Seq<BindRule>,
    pub symlink: Seq<(Seq<char>, Seq<char>)>,
    pub env: Seq<(Seq<char>, Seq<char>)>,
    pub unset: Seq<Seq<char>>,
    pub share_user: bool,
    pub share_ipc: bool,
    pub share_pid: bool,
    pub share_net: bool,
    pub share_uts: bool,
    pub share_cgroup: bool,
    pub share_wayland: bool,
    pub share_x11: bool,
    pub share_env: bool,
    pub keep_alive: bool,
    pub procfs: Option<Seq<char>>,
    pub tmpfs: Seq<Seq<char>>,
    pub uid: Option<u16>,
    pub gid: Option<u16>,
    pub hostname: Option<Seq<char>>,
    pub dbus_proxy: Option<BusFilter>,
}

/// The list an optional list stands for.
pub open spec fn list_or_empty<T: DeepView>(list: Option<Vec<T>>) -> Seq<T::V> {
    match list {
        Some(items) => items.deep_view(),
        None => Seq::empty(),
    }
}

impl View for Config {
    type V = Profile;

    open spec fn view(&self) -> Profile {
        Profile {
            bind: list_or_empty(self.bind),
            dev_bind: list_or_empty(self.dev_bind),
            symlink: list_or_empty(self.symlink),
            env: list_or_empty(self.env),
            unset: list_or_empty(self.unset),
            share_user: self.share_user,
            share_ipc: self.share_ipc,
            share_pid: self.share_pid,
            share_net: self.share_net,
            share_uts: self.share_uts,
            share_cgroup: self.share_cgroup,
            share_wayland: self.share_wayland,
            share_x11: self.share_x11,
            share_env: self.share_env,
            keep_alive: self.keep_alive,
            procfs: self.procfs.deep_view(),
            tmpfs: list_or_empty(self.tmpfs),
            uid: self.uid,
            gid: self.gid,
            hostname: self.hostname.deep_view(),
            dbus_proxy: match self.dbus_proxy {
                Some(filter) => Some(filter@),
                None => None,
            },
        }
    }
}

impl Profile {
    /// The profile that mentions nothing: every list empty, every override
    /// absent, and nothing shared with the host.
    pub open spec fn isolated() -> Profile {
        Profile {
            bind: Seq::empty(),
            dev_bind: Seq::empty(),
            symlink: Seq::empty(),
            env: Seq::empty(),
            unset: Seq::empty(),
            share_user: false,
            share_ipc: false,
            share_pid: false,
            share_net: false,
            share_uts: false,
            share_cgroup: false,
            share_wayland: false,
            share_x11: false,
            share_env: false,
            keep_alive: false,
            procfs: None,
            tmpfs: Seq::empty(),
            uid: None,
            gid: None,
            hostname: None,
            dbus_proxy: None,
        }
    }
}

impl Default for Config {
    /// The profile of an empty document: maximally isolated.
    fn default() -> (config: Config)
        ensures
            config@ == Profile::isolated(),
    {
        Config {
            bind: None,
            dev_bind: None,
            symlink: None,
            env: None,
            unset: None,
            share_user: default_false(),
            share_ipc: default_false(),
            share_pid: default_false(),
            share_net: default_false(),
            share_uts: default_false(),
            share_cgroup: default_false(),
            share_wayland: default_false(),
            share_x11: default_false(),
            share_env: default_false(),
            keep_alive: default_false(),
            procfs: None,
            tmpfs: None,
            uid: None,
            gid: None,
            hostname: None,
            dbus_proxy: None,
        }
    }
}

} // verus!
