//! The invocation compiler: from a profile and a snapshot of the ambient
//! environment to the arguments and the environment of the sandbox
//! launcher, and to the command line of the bus proxy when the profile asks
//! for one.

use crate::ambient::{Ambient, AmbientVar, AmbientView};
use crate::display::{display_binds, display_env, display_missing, resolve_display};
use crate::error::LaunchError;
use crate::profile::{Config, Profile};
use crate::proxy::{
    bus_address_for,
    bus_path_for,
    proxy_missing,
    proxy_setup,
    proxy_setup_of,
    proxy_socket_path,
    sandbox_bus_address,
    sandbox_bus_path,
    socket_path_for,
    ProxySetup,
    ProxySetupView,
};
use crate::sections::{
    bind_tokens,
    dev_bind_tokens,
    emit_binds,
    emit_dev_binds,
    emit_identity,
    emit_isolation,
    emit_mounts,
    emit_setenv,
    emit_symlinks,
    emit_unset,
    identity_tokens,
    isolation_tokens,
    mount_tokens,
    setenv_tokens,
    symlink_tokens,
    unset_tokens,
    Tokens,
};
use crate::text::push_token;
use crate::variables::{
    assign,
    assign_all,
    distinct_names,
    lemma_assign_all_distinct,
    lemma_assign_distinct,
    set_variable,
    set_variables,
    Bindings,
};
use vstd::prelude::*;

verus! {

/// The program that builds the sandbox.
pub const LAUNCHER_PROGRAM: &'static str = "bwrap";

/// A compiled invocation of the sandbox launcher.
#[derive(Clone, Debug, PartialEq, Eq)]
pub struct Invocation {
    /// The arguments of the launcher, in order.
    pub tokens: Vec<String>,
    /// The variables to inject into the sandboxed process. No name occurs
    /// twice.
    pub env: Vec<(String, String)>,
}

/// The mathematical view of an [`Invocation`].
pub struct InvocationView {
    pub tokens: Tokens,
    pub env: Bindings,
}

impl View for Invocation {
    type V = InvocationView;

    open spec fn view(&self) -> InvocationView {
        InvocationView { tokens: self.tokens.deep_view(), env: self.env.deep_view() }
    }
}

/// What one run starts: the sandbox launcher and, when the profile asks for
/// bus filtering, the proxy that must be listening before it.
#[derive(Clone, Debug, PartialEq, Eq)]
pub struct LaunchPlan {
    pub sandbox: Invocation,
    pub proxy: Option<ProxySetup>,
}

/// The mathematical view of a [`LaunchPlan`].
pub struct LaunchPlanView {
    pub sandbox: InvocationView,
    pub proxy: Option<ProxySetupView>,
}

impl View for LaunchPlan {
    type V = LaunchPlanView;

    open spec fn view(&self) -> LaunchPlanView {
        LaunchPlanView {
            sandbox: self.sandbox@,
            proxy: match self.proxy {
                Some(proxy) => Some(proxy@),
                None => None,
            },
        }
    }
}

/// The environment of the sandboxed process before any bus routing: the
/// variables of display sharing, then those of the profile, each set in
/// turn, so that the profile has the last word on a name.
pub open spec fn merged_env(profile: Profile, ambient: AmbientView) -> Bindings {
    assign_all(assign_all(Seq::empty(), display_env(profile, ambient)), profile.env)
}

/// The tokens that a profile compiles to, up to the point where the command
/// to run follows: isolation switches, display binds, mounts, identity
/// overrides, environment, binds, device binds, unsets and symlinks.
pub open spec fn body_tokens(profile: Profile, ambient: AmbientView) -> Tokens {
    isolation_tokens(profile)
        + bind_tokens(display_binds(profile, ambient))
        + mount_tokens(profile)
        + identity_tokens(profile)
        + setenv_tokens(merged_env(profile, ambient))
        + bind_tokens(profile.bind)
        + dev_bind_tokens(profile.dev_bind)
        + unset_tokens(profile.unset)
        + symlink_tokens(profile.symlink)
}

/// The read-write bind that puts the socket of the proxy at the fixed bus
/// path of the sandbox.
pub open spec fn bus_route_tokens(runtime_dir: Seq<char>, pid: u32) -> Tokens {
    seq!["--bind"@, proxy_socket_path(runtime_dir, pid), sandbox_bus_path(runtime_dir)]
}

/// The tail of every invocation: the executable and its arguments.
pub open spec fn command_tokens(executable: Seq<char>, args: Seq<Seq<char>>) -> Tokens {
    seq![executable] + args
}

/// The ambient variable whose absence makes compilation fail, if there is
/// one: what display sharing misses, else what the proxy misses when the
/// profile asks for one.
pub open spec fn compile_missing(profile: Profile, ambient: AmbientView) -> Option<AmbientVar> {
    match display_missing(profile, ambient) {
        Some(var) => Some(var),
        None => if profile.dbus_proxy is Some {
            proxy_missing(ambient)
        } else {
            None
        },
    }
}

/// The invocation of the launcher for a profile, where nothing is missing.
/// With a bus proxy the bind of its socket precedes the command, and the
/// bus address of the sandboxed process points at the fixed bus path.
pub open spec fn sandbox_of(
    profile: Profile,
    ambient: AmbientView,
    pid: u32,
    executable: Seq<char>,
    args: Seq<Seq<char>>,
) -> InvocationView
    recommends
        compile_missing(profile, ambient) is None,
{
    if profile.dbus_proxy is Some {
        InvocationView {
            tokens: body_tokens(profile, ambient) + bus_route_tokens(ambient.runtime_dir->0, pid)
                + command_tokens(executable, args),
            env: assign(
                merged_env(profile, ambient),
                AmbientVar::BusAddress.spec_name(),
                sandbox_bus_address(ambient.runtime_dir->0),
            ),
        }
    } else {
        InvocationView {
            tokens: body_tokens(profile, ambient) + command_tokens(executable, args),
            env: merged_env(profile, ambient),
        }
    }
}

/// The plan for a profile, where nothing is missing.
pub open spec fn plan_of(
    profile: Profile,
    ambient: AmbientView,
    pid: u32,
    executable: Seq<char>,
    args: Seq<Seq<char>>,
) -> LaunchPlanView
    recommends
        compile_missing(profile, ambient) is None,
{
    LaunchPlanView {
        sandbox: sandbox_of(profile, ambient, pid, executable, args),
        proxy: match profile.dbus_proxy {
            Some(filter) => Some(proxy_setup_of(filter, ambient, pid)),
            None => None,
        },
    }
}

/// What compiling a profile gives: the first missing ambient variable as a
/// failure, or the plan.
pub open spec fn compiled_of(
    profile: Profile,
    ambient: AmbientView,
    pid: u32,
    executable: Seq<char>,
    args: Seq<Seq<char>>,
) -> Result<LaunchPlanView, LaunchError> {
    match compile_missing(profile, ambient) {
        Some(var) => Err(LaunchError::MissingEnvironment(var)),
        None => Ok(plan_of(profile, ambient, pid, executable, args)),
    }
}

/// The mathematical view of what compilation returns.
pub open spec fn compiled_view(compiled: Result<LaunchPlan, LaunchError>) -> Result<
    LaunchPlanView,
    LaunchError,
> {
    match compiled {
        Ok(plan) => Ok(plan@),
        Err(error) => Err(error),
    }
}

impl Invocation {
    /// Routes the bus of the sandboxed process through the proxy: appends
    /// the read-write bind of the proxy socket to the fixed bus path, and
    /// sets the bus address to that path, over any value it had.
    pub fn route_bus(&mut self, runtime_dir: &str, pid: u32)
        ensures
            final(self)@.tokens == old(self)@.tokens + bus_route_tokens(runtime_dir@, pid),
            final(self)@.env == assign(
                old(self)@.env,
                AmbientVar::BusAddress.spec_name(),
                sandbox_bus_address(runtime_dir@),
            ),
    {
        let socket_path = socket_path_for(runtime_dir, pid);
        let bus_path = bus_path_for(runtime_dir);
        let bus_address = bus_address_for(runtime_dir);
        push_token(&mut self.tokens, "--bind");
        push_token(&mut self.tokens, socket_path.as_str());
        push_token(&mut self.tokens, bus_path.as_str());
        assert(self@.tokens =~= old(self)@.tokens + bus_route_tokens(runtime_dir@, pid));
        set_variable(&mut self.env, AmbientVar::BusAddress.name(), bus_address.as_str());
    }

    /// Appends the executable and its arguments, unchanged and in order.
    pub fn append_command(&mut self, executable: &str, args: &Vec<String>)
        ensures
            final(self)@.tokens == old(self)@.tokens + command_tokens(
                executable@,
                args.deep_view(),
            ),
            final(self)@.env == old(self)@.env,
    {
        let ghost base = self@.tokens;
        let ghost all = args.deep_view();
        push_token(&mut self.tokens, executable);
        let mut i: usize = 0;
        assert(self@.tokens =~= base + command_tokens(executable@, all.take(0)));
        while i < args.len()
            invariant
                i <= args.len(),
                all == args.deep_view(),
                self@.tokens == base + command_tokens(executable@, all.take(i as int)),
                self@.env == old(self)@.env,
            decreases args.len() - i,
        {
            push_token(&mut self.tokens, args[i].as_str());
            proof {
                assert(self@.tokens =~= base + command_tokens(executable@, all.take(i + 1)));
            }
            i += 1;
        }
        assert(all.take(i as int) =~= all);
    }
}

/// The environment of a compiled invocation binds no name twice.
pub proof fn lemma_sandbox_env_distinct(
    profile: Profile,
    ambient: AmbientView,
    pid: u32,
    executable: Seq<char>,
    args: Seq<Seq<char>>,
)
    ensures
        distinct_names(merged_env(profile, ambient)),
        distinct_names(sandbox_of(profile, ambient, pid, executable, args).env),
{
    let shared = assign_all(Seq::empty(), display_env(profile, ambient));
    lemma_assign_all_distinct(Seq::empty(), display_env(profile, ambient));
    lemma_assign_all_distinct(shared, profile.env);
    if profile.dbus_proxy is Some {
        lemma_assign_distinct(
            merged_env(profile, ambient),
            AmbientVar::BusAddress.spec_name(),
            sandbox_bus_address(ambient.runtime_dir->0),
        );
    }
}

/// Compiles the part of an invocation that the profile alone decides: every
/// section up to the command to run, and the merged environment.
///
/// Fails exactly when display sharing misses an ambient variable.
pub fn compile_body(profile: &Config, ambient: &Ambient) -> (compiled: Result<
    Invocation,
    LaunchError,
>)
    ensures
        match compiled {
            Ok(invocation) => {
                &&& display_missing(profile@, ambient@) is None
                &&& invocation@.tokens == body_tokens(profile@, ambient@)
                &&& invocation@.env == merged_env(profile@, ambient@)
            },
            Err(error) => {
                &&& display_missing(profile@, ambient@) matches Some(var)
                &&& error == LaunchError::MissingEnvironment(var)
            },
        },
{
    let display = match resolve_display(profile, ambient) {
        Ok(display) => display,
        Err(error) => {
            return Err(error);
        },
    };
    let mut env: Vec<(String, String)> = Vec::new();
    assert(env.deep_view() =~= Seq::empty());
    set_variables(&mut env, &display.env);
    match &profile.env {
        Some(pairs) => {
            set_variables(&mut env, pairs);
        },
        None => {},
    }
    let mut tokens: Vec<String> = Vec::new();
    assert(tokens.deep_view() =~= Seq::empty());
    emit_isolation(&mut tokens, profile);
    assert(tokens.deep_view() =~= isolation_tokens(profile@));
    emit_binds(&mut tokens, &display.binds);
    emit_mounts(&mut tokens, profile);
    emit_identity(&mut tokens, profile);
    emit_setenv(&mut tokens, &env);
    match &profile.bind {
        Some(rules) => {
            emit_binds(&mut tokens, rules);
        },
        None => {
            assert(tokens.deep_view() =~= tokens.deep_view() + bind_tokens(Seq::empty()));
        },
    }
    match &profile.dev_bind {
        Some(rules) => {
            emit_dev_binds(&mut tokens, rules);
        },
        None => {
            assert(tokens.deep_view() =~= tokens.deep_view() + dev_bind_tokens(Seq::empty()));
        },
    }
    match &profile.unset {
        Some(names) => {
            emit_unset(&mut tokens, names);
        },
        None => {
            assert(tokens.deep_view() =~= tokens.deep_view() + unset_tokens(Seq::empty()));
        },
    }
    match &profile.symlink {
        Some(pairs) => {
            emit_symlinks(&mut tokens, pairs);
        },
        None => {
            assert(tokens.deep_view() =~= tokens.deep_view() + symlink_tokens(Seq::empty()));
        },
    }
    Ok(Invocation { tokens, env })
}

/// Compiles a profile into the plan of one run.
///
/// The result is a function of the arguments alone: the ambient environment
/// enters only through the snapshot. Compilation fails exactly when a
/// requested display-sharing mode or the bus proxy needs an ambient variable
/// that the snapshot does not hold, and then names the first such variable.
pub fn compile(
    profile: &Config,
    ambient: &Ambient,
    pid: u32,
    executable: &str,
    args: &Vec<String>,
) -> (compiled: Result<LaunchPlan, LaunchError>)
    ensures
        compiled_view(compiled) == compiled_of(
            profile@,
            ambient@,
            pid,
            executable@,
            args.deep_view(),
        ),
        compiled is Err <==> compile_missing(profile@, ambient@) is Some,
        profile.share_wayland && (ambient.runtime_dir is None || ambient.wayland_display is None)
            ==> compiled matches Err(LaunchError::MissingEnvironment(_)),
        compiled matches Ok(plan) ==> distinct_names(plan@.sandbox.env),
{
    proof {
        lemma_sandbox_env_distinct(profile@, ambient@, pid, executable@, args.deep_view());
    }
    let mut sandbox = match compile_body(profile, ambient) {
        Ok(invocation) => invocation,
        Err(error) => {
            return Err(error);
        },
    };
    let proxy = match &profile.dbus_proxy {
        Some(config) => {
            let setup = match proxy_setup(config, ambient, pid) {
                Ok(setup) => setup,
                Err(error) => {
                    return Err(error);
                },
            };
            match ambient.get(AmbientVar::RuntimeDir) {
                Some(runtime_dir) => {
                    sandbox.route_bus(runtime_dir, pid);
                },
                None => {},
            }
            Some(setup)
        },
        None => None,
    };
    sandbox.append_command(executable, args);
    Ok(LaunchPlan { sandbox, proxy })
}

} // verus!
