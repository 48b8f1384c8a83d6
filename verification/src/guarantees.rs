//! What holds of every compiled invocation: statements about all profiles
//! and all snapshots of the ambient environment.

use crate::ambient::{AmbientVar, AmbientView};
use crate::compiler::{
    body_tokens,
    bus_route_tokens,
    command_tokens,
    compile_missing,
    compiled_of,
    compiled_view,
    merged_env,
    LaunchPlan,
    LaunchPlanView,
};
use crate::display::{display_binds, display_env};
use crate::error::LaunchError;
use crate::profile::{BindRule, Profile};
use crate::proxy::{proxy_setup_of, sandbox_bus_address};
use crate::sections::{
    bind_flag,
    bind_tokens,
    dev_bind_flag,
    dev_bind_tokens,
    identity_tokens,
    isolation_tokens,
    mount_tokens,
    setenv_tokens,
    Switch,
    Tokens,
};
use crate::variables::{
    assign_all,
    last_value,
    lemma_lookup_assign_all,
    lemma_lookup_assigned,
    lookup,
};
use vstd::prelude::*;

verus! {

/// How often a token occurs in a token list.
pub open spec fn occurrences(tokens: Tokens, token: Seq<char>) -> nat
    decreases tokens.len(),
{
    if tokens.len() == 0 {
        0
    } else {
        occurrences(tokens.drop_last(), token) + if tokens.last() == token {
            1nat
        } else {
            0nat
        }
    }
}

/// Occurrences add up over concatenation.
pub proof fn lemma_occurrences_concat(a: Tokens, b: Tokens, token: Seq<char>)
    ensures
        occurrences(a + b, token) == occurrences(a, token) + occurrences(b, token),
    decreases b.len(),
{
    if b.len() == 0 {
        assert(a + b =~= a);
    } else {
        assert((a + b).drop_last() =~= a + b.drop_last());
        lemma_occurrences_concat(a, b.drop_last(), token);
    }
}

/// A token that a list does not contain occurs in it zero times.
pub proof fn lemma_occurrences_absent(tokens: Tokens, token: Seq<char>)
    requires
        !tokens.contains(token),
    ensures
        occurrences(tokens, token) == 0,
    decreases tokens.len(),
{
    if tokens.len() > 0 {
        assert(tokens[tokens.len() - 1] == tokens.last());
        assert forall|i: int| 0 <= i < tokens.drop_last().len() implies tokens.drop_last()[i]
            != token by {
            assert(tokens[i] == tokens.drop_last()[i]);
        }
        lemma_occurrences_absent(tokens.drop_last(), token);
    }
}

/// Different switches have different flags.
pub proof fn lemma_switch_tokens_distinct(a: Switch, b: Switch)
    ensures
        a.token() == b.token() <==> a == b,
{
    reveal_strlit("--unshare-ipc");
    reveal_strlit("--unshare-pid");
    reveal_strlit("--unshare-user");
    reveal_strlit("--unshare-net");
    reveal_strlit("--unshare-cgroup");
    reveal_strlit("--unshare-uts");
    reveal_strlit("--clearenv");
    reveal_strlit("--die-with-parent");
    if a != b && a.token() == b.token() {
        assert(a.token().len() == b.token().len());
        assert(a.token()[10] == b.token()[10]);
    }
}

proof fn lemma_switch_section(profile: Profile, emitted: Switch, wanted: Switch)
    ensures
        occurrences(emitted.tokens(profile), wanted.token()) == if emitted == wanted
            && !wanted.relaxed(profile) {
            1nat
        } else {
            0nat
        },
{
    lemma_switch_tokens_distinct(emitted, wanted);
    let section = emitted.tokens(profile);
    if section.len() > 0 {
        assert(section.drop_last().len() == 0);
        assert(occurrences(section.drop_last(), wanted.token()) == 0);
    }
}

/// The isolation section holds the flag of each switch exactly once when
/// the profile leaves the governing field unset, and not at all when the
/// profile sets it.
pub proof fn lemma_isolation_matches_flags(profile: Profile, switch: Switch)
    ensures
        occurrences(isolation_tokens(profile), switch.token()) == if switch.relaxed(profile) {
            0nat
        } else {
            1nat
        },
{
    let t = switch.token();
    let s1 = Switch::UnshareIpc.tokens(profile);
    let s2 = s1 + Switch::UnsharePid.tokens(profile);
    let s3 = s2 + Switch::UnshareUser.tokens(profile);
    let s4 = s3 + Switch::UnshareNet.tokens(profile);
    let s5 = s4 + Switch::UnshareCgroup.tokens(profile);
    let s6 = s5 + Switch::UnshareUts.tokens(profile);
    let s7 = s6 + Switch::ClearEnv.tokens(profile);
    let s8 = s7 + Switch::DieWithParent.tokens(profile);
    lemma_switch_section(profile, Switch::UnshareIpc, switch);
    lemma_switch_section(profile, Switch::UnsharePid, switch);
    lemma_switch_section(profile, Switch::UnshareUser, switch);
    lemma_switch_section(profile, Switch::UnshareNet, switch);
    lemma_switch_section(profile, Switch::UnshareCgroup, switch);
    lemma_switch_section(profile, Switch::UnshareUts, switch);
    lemma_switch_section(profile, Switch::ClearEnv, switch);
    lemma_switch_section(profile, Switch::DieWithParent, switch);
    lemma_occurrences_concat(s1, Switch::UnsharePid.tokens(profile), t);
    lemma_occurrences_concat(s2, Switch::UnshareUser.tokens(profile), t);
    lemma_occurrences_concat(s3, Switch::UnshareNet.tokens(profile), t);
    lemma_occurrences_concat(s4, Switch::UnshareCgroup.tokens(profile), t);
    lemma_occurrences_concat(s5, Switch::UnshareUts.tokens(profile), t);
    lemma_occurrences_concat(s6, Switch::ClearEnv.tokens(profile), t);
    lemma_occurrences_concat(s7, Switch::DieWithParent.tokens(profile), t);
    assert(s8 == isolation_tokens(profile));
}

/// What follows the isolation section in the tokens of an invocation: the
/// sections that carry text of the profile, of the environment and of the
/// command.
pub open spec fn after_isolation(profile: Profile, tokens: Tokens) -> Tokens {
    tokens.subrange(isolation_tokens(profile).len() as int, tokens.len() as int)
}

/// Every invocation begins with the isolation section.
pub proof fn lemma_isolation_comes_first(
    profile: Profile,
    ambient: AmbientView,
    pid: u32,
    executable: Seq<char>,
    args: Seq<Seq<char>>,
    plan: LaunchPlanView,
)
    requires
        compiled_of(profile, ambient, pid, executable, args) == Ok::<_, LaunchError>(plan),
    ensures
        isolation_tokens(profile).len() <= plan.sandbox.tokens.len(),
        plan.sandbox.tokens == isolation_tokens(profile) + after_isolation(
            profile,
            plan.sandbox.tokens,
        ),
{
    let tokens = plan.sandbox.tokens;
    let head = isolation_tokens(profile);
    assert(head.len() <= tokens.len());
    assert(tokens.subrange(0, head.len() as int) =~= head);
    assert(tokens =~= head + after_isolation(profile, tokens));
}

/// A compiled invocation holds the flag of each switch exactly once when
/// the profile leaves the governing field unset, and not at all when the
/// profile sets it, provided that no text of the profile, of the
/// environment or of the command spells that flag.
pub proof fn lemma_switch_matches_flag(
    profile: Profile,
    ambient: AmbientView,
    pid: u32,
    executable: Seq<char>,
    args: Seq<Seq<char>>,
    plan: LaunchPlanView,
    switch: Switch,
)
    requires
        compiled_of(profile, ambient, pid, executable, args) == Ok::<_, LaunchError>(plan),
        !after_isolation(profile, plan.sandbox.tokens).contains(switch.token()),
    ensures
        occurrences(plan.sandbox.tokens, switch.token()) == if switch.relaxed(profile) {
            0nat
        } else {
            1nat
        },
{
    let rest = after_isolation(profile, plan.sandbox.tokens);
    lemma_isolation_comes_first(profile, ambient, pid, executable, args, plan);
    lemma_isolation_matches_flags(profile, switch);
    lemma_occurrences_absent(rest, switch.token());
    lemma_occurrences_concat(isolation_tokens(profile), rest, switch.token());
}

/// A bind section holds three tokens for each rule: at three times the
/// position of the rule stand its flag, its source and its destination.
pub proof fn lemma_bind_tokens_at(rules: Seq<BindRule>, i: int)
    requires
        0 <= i < rules.len(),
    ensures
        bind_tokens(rules).len() == 3 * rules.len(),
        bind_tokens(rules)[3 * i] == bind_flag(rules[i]),
        bind_tokens(rules)[3 * i + 1] == rules[i].src,
        bind_tokens(rules)[3 * i + 2] == rules[i].dest,
    decreases rules.len(),
{
    lemma_bind_tokens_len(rules);
    lemma_bind_tokens_len(rules.drop_last());
    if i < rules.len() - 1 {
        lemma_bind_tokens_at(rules.drop_last(), i);
    }
}

/// A bind section holds three tokens for each rule.
pub proof fn lemma_bind_tokens_len(rules: Seq<BindRule>)
    ensures
        bind_tokens(rules).len() == 3 * rules.len(),
    decreases rules.len(),
{
    if rules.len() > 0 {
        lemma_bind_tokens_len(rules.drop_last());
    }
}

/// The device bind section holds three tokens for each rule: at three times
/// the position of the rule stand its flag, its source and its destination.
pub proof fn lemma_dev_bind_tokens_at(rules: Seq<BindRule>, i: int)
    requires
        0 <= i < rules.len(),
    ensures
        dev_bind_tokens(rules).len() == 3 * rules.len(),
        dev_bind_tokens(rules)[3 * i] == dev_bind_flag(rules[i]),
        dev_bind_tokens(rules)[3 * i + 1] == rules[i].src,
        dev_bind_tokens(rules)[3 * i + 2] == rules[i].dest,
    decreases rules.len(),
{
    lemma_dev_bind_tokens_len(rules);
    lemma_dev_bind_tokens_len(rules.drop_last());
    if i < rules.len() - 1 {
        lemma_dev_bind_tokens_at(rules.drop_last(), i);
    }
}

/// The device bind section holds three tokens for each rule.
pub proof fn lemma_dev_bind_tokens_len(rules: Seq<BindRule>)
    ensures
        dev_bind_tokens(rules).len() == 3 * rules.len(),
    decreases rules.len(),
{
    if rules.len() > 0 {
        lemma_dev_bind_tokens_len(rules.drop_last());
    }
}

/// The flag of a bind rule follows from its two flags alone, and the four
/// combinations give four flags: read-only and failing `--ro-bind`,
/// read-only and tolerant `--ro-bind-try`, read-write and failing `--bind`,
/// read-write and tolerant `--bind-try`.
pub proof fn lemma_bind_flag_matrix(rule: BindRule)
    ensures
        !rule.rw && !rule.no_fail ==> bind_flag(rule) == "--ro-bind"@,
        !rule.rw && rule.no_fail ==> bind_flag(rule) == "--ro-bind-try"@,
        rule.rw && !rule.no_fail ==> bind_flag(rule) == "--bind"@,
        rule.rw && rule.no_fail ==> bind_flag(rule) == "--bind-try"@,
        "--ro-bind"@ != "--ro-bind-try"@,
        "--ro-bind"@ != "--bind"@,
        "--ro-bind"@ != "--bind-try"@,
        "--ro-bind-try"@ != "--bind"@,
        "--ro-bind-try"@ != "--bind-try"@,
        "--bind"@ != "--bind-try"@,
{
    reveal_strlit("--ro-bind");
    reveal_strlit("--ro-bind-try");
    reveal_strlit("--bind");
    reveal_strlit("--bind-try");
    assert("--ro-bind"@.len() == 9);
    assert("--ro-bind-try"@.len() == 13);
    assert("--bind"@.len() == 6);
    assert("--bind-try"@.len() == 10);
}

/// The flag of a device bind rule does not depend on its read-write flag:
/// only tolerance of a missing source selects between `--dev-bind` and
/// `--dev-bind-try`.
pub proof fn lemma_dev_bind_ignores_rw(rule: BindRule, other: BindRule)
    requires
        rule.no_fail == other.no_fail,
    ensures
        dev_bind_flag(rule) == dev_bind_flag(other),
        !rule.no_fail ==> dev_bind_flag(rule) == "--dev-bind"@,
        rule.no_fail ==> dev_bind_flag(rule) == "--dev-bind-try"@,
{
}

/// Where the bind section of the profile begins in the invocation: after
/// the isolation switches, the display binds, the mounts, the identity
/// overrides and the environment.
pub open spec fn bind_section_start(profile: Profile, ambient: AmbientView) -> int {
    (isolation_tokens(profile)
        + bind_tokens(display_binds(profile, ambient))
        + mount_tokens(profile)
        + identity_tokens(profile)
        + setenv_tokens(merged_env(profile, ambient))).len() as int
}

/// Where the device bind section of the profile begins in the invocation:
/// right after the bind section.
pub open spec fn dev_bind_section_start(profile: Profile, ambient: AmbientView) -> int {
    bind_section_start(profile, ambient) + 3 * profile.bind.len()
}

/// Each bind rule of a profile compiles to its flag, its source and its
/// destination, in this order and at the place of the rule in the bind
/// section; the flag is the one that the two flags of the rule select.
pub proof fn lemma_bind_rule_compiled(
    profile: Profile,
    ambient: AmbientView,
    pid: u32,
    executable: Seq<char>,
    args: Seq<Seq<char>>,
    plan: LaunchPlanView,
    i: int,
)
    requires
        compiled_of(profile, ambient, pid, executable, args) == Ok::<_, LaunchError>(plan),
        0 <= i < profile.bind.len(),
    ensures
        ({
            let tokens = plan.sandbox.tokens;
            let at = bind_section_start(profile, ambient) + 3 * i;
            let rule = profile.bind[i];
            &&& 0 <= at && at + 3 <= tokens.len()
            &&& tokens[at] == bind_flag(rule)
            &&& tokens[at + 1] == rule.src
            &&& tokens[at + 2] == rule.dest
            &&& tokens[at] == if rule.rw {
                if rule.no_fail {
                    "--bind-try"@
                } else {
                    "--bind"@
                }
            } else {
                if rule.no_fail {
                    "--ro-bind-try"@
                } else {
                    "--ro-bind"@
                }
            }
        }),
{
    lemma_bind_tokens_at(profile.bind, i);
}

/// Each device bind rule of a profile compiles to its flag, its source and
/// its destination, in this order and at the place of the rule in the
/// device bind section.
pub proof fn lemma_dev_bind_rule_compiled(
    profile: Profile,
    ambient: AmbientView,
    pid: u32,
    executable: Seq<char>,
    args: Seq<Seq<char>>,
    plan: LaunchPlanView,
    i: int,
)
    requires
        compiled_of(profile, ambient, pid, executable, args) == Ok::<_, LaunchError>(plan),
        0 <= i < profile.dev_bind.len(),
    ensures
        ({
            let tokens = plan.sandbox.tokens;
            let at = dev_bind_section_start(profile, ambient) + 3 * i;
            let rule = profile.dev_bind[i];
            &&& 0 <= at && at + 3 <= tokens.len()
            &&& tokens[at] == if rule.no_fail {
                "--dev-bind-try"@
            } else {
                "--dev-bind"@
            }
            &&& tokens[at + 1] == rule.src
            &&& tokens[at + 2] == rule.dest
        }),
{
    lemma_bind_tokens_len(profile.bind);
    lemma_dev_bind_tokens_at(profile.dev_bind, i);
}

/// Compilation is a function of its arguments: two results of compiling
/// the same profile against the same snapshot, for the same process and
/// command, have the same tokens and the same environment, or are the same
/// failure.
pub proof fn lemma_compile_deterministic(
    profile: Profile,
    ambient: AmbientView,
    pid: u32,
    executable: Seq<char>,
    args: Seq<Seq<char>>,
    first: Result<LaunchPlan, LaunchError>,
    second: Result<LaunchPlan, LaunchError>,
)
    requires
        compiled_view(first) == compiled_of(profile, ambient, pid, executable, args),
        compiled_view(second) == compiled_of(profile, ambient, pid, executable, args),
    ensures
        compiled_view(first) == compiled_view(second),
        first is Ok <==> second is Ok,
        first matches Ok(one) ==> second matches Ok(two) && one@.sandbox.tokens
            == two@.sandbox.tokens && one@.sandbox.env == two@.sandbox.env && one@.proxy
            == two@.proxy,
        first matches Err(one) ==> second matches Err(two) && one == two,
{
}

/// The command is the tail of every compiled invocation: the last tokens
/// are the executable and its arguments, unchanged and in order.
pub proof fn lemma_command_is_tail(
    profile: Profile,
    ambient: AmbientView,
    pid: u32,
    executable: Seq<char>,
    args: Seq<Seq<char>>,
    plan: LaunchPlanView,
)
    requires
        compiled_of(profile, ambient, pid, executable, args) == Ok::<_, LaunchError>(plan),
    ensures
        ({
            let tokens = plan.sandbox.tokens;
            let at = tokens.len() - args.len() - 1;
            &&& at >= 0
            &&& tokens[at] == executable
            &&& tokens.subrange(at + 1, tokens.len() as int) == args
            &&& tokens.subrange(at, tokens.len() as int) == command_tokens(executable, args)
        }),
{
    let tokens = plan.sandbox.tokens;
    let at = tokens.len() - args.len() - 1;
    assert(tokens.subrange(at + 1, tokens.len() as int) =~= args);
    assert(tokens.subrange(at, tokens.len() as int) =~= command_tokens(executable, args));
}

/// A profile without a bus proxy compiles to a plan without one, whose
/// invocation is the compiled sections followed by the command and whose
/// environment is the merged environment.
pub proof fn lemma_direct_plan(
    profile: Profile,
    ambient: AmbientView,
    pid: u32,
    executable: Seq<char>,
    args: Seq<Seq<char>>,
    plan: LaunchPlanView,
)
    requires
        compiled_of(profile, ambient, pid, executable, args) == Ok::<_, LaunchError>(plan),
        profile.dbus_proxy is None,
    ensures
        plan.proxy is None,
        plan.sandbox.tokens == body_tokens(profile, ambient) + command_tokens(executable, args),
        plan.sandbox.env == merged_env(profile, ambient),
{
}

/// With a bus proxy, the plan starts the proxy on the socket of this run,
/// the bind of that socket to the fixed bus path stands right before the
/// command, and the bus address of the sandboxed process is the fixed bus
/// path, whatever the profile or the host set it to.
pub proof fn lemma_bus_routed(
    profile: Profile,
    ambient: AmbientView,
    pid: u32,
    executable: Seq<char>,
    args: Seq<Seq<char>>,
    plan: LaunchPlanView,
)
    requires
        compiled_of(profile, ambient, pid, executable, args) == Ok::<_, LaunchError>(plan),
        profile.dbus_proxy is Some,
    ensures
        ambient.runtime_dir is Some,
        ambient.bus_address is Some,
        plan.proxy == Some(proxy_setup_of(profile.dbus_proxy->0, ambient, pid)),
        ({
            let sandbox = plan.sandbox;
            let at = sandbox.tokens.len() - args.len() - 4;
            &&& at >= 0
            &&& sandbox.tokens.subrange(at, at + 3) == bus_route_tokens(
                ambient.runtime_dir->0,
                pid,
            )
            &&& lookup(sandbox.env, AmbientVar::BusAddress.spec_name()) == Some(
                sandbox_bus_address(ambient.runtime_dir->0),
            )
        }),
{
    let sandbox = plan.sandbox;
    let at = sandbox.tokens.len() - args.len() - 4;
    assert(sandbox.tokens.subrange(at, at + 3) =~= bus_route_tokens(
        ambient.runtime_dir->0,
        pid,
    ));
    lemma_lookup_assigned(
        merged_env(profile, ambient),
        AmbientVar::BusAddress.spec_name(),
        sandbox_bus_address(ambient.runtime_dir->0),
    );
}

/// The merged environment as a mapping: the value of a name is the one the
/// profile gives it last, or else the one display sharing gives it, or else
/// none.
pub proof fn lemma_profile_env_wins(profile: Profile, ambient: AmbientView, name: Seq<char>)
    ensures
        lookup(merged_env(profile, ambient), name) == match last_value(profile.env, name) {
            Some(value) => Some(value),
            None => last_value(display_env(profile, ambient), name),
        },
{
    let shared = assign_all(Seq::empty(), display_env(profile, ambient));
    lemma_lookup_assign_all(Seq::empty(), display_env(profile, ambient), name);
    lemma_lookup_assign_all(shared, profile.env, name);
}

/// Whenever Wayland sharing is asked for and the snapshot lacks the
/// runtime directory or the display name, compilation fails and names a
/// missing variable; nothing is compiled that could be started.
pub proof fn lemma_wayland_needs_environment(
    profile: Profile,
    ambient: AmbientView,
    pid: u32,
    executable: Seq<char>,
    args: Seq<Seq<char>>,
)
    requires
        profile.share_wayland,
        ambient.runtime_dir is None || ambient.wayland_display is None,
    ensures
        compiled_of(profile, ambient, pid, executable, args) == Err::<LaunchPlanView, _>(
            LaunchError::MissingEnvironment(
                if ambient.runtime_dir is None {
                    AmbientVar::RuntimeDir
                } else {
                    AmbientVar::WaylandDisplay
                },
            ),
        ),
{
}

/// The absence of the X authority variable is never a failure: compilation
/// never names it as missing, and fails or succeeds alike with and without
/// it.
pub proof fn lemma_x11_needs_no_authority(profile: Profile, ambient: AmbientView)
    ensures
        compile_missing(profile, ambient) != Some(AmbientVar::XAuthority),
        compile_missing(profile, ambient) == compile_missing(
            profile,
            AmbientView { xauthority: None, ..ambient },
        ),
{
}

} // verus!
