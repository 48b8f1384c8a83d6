//! The sections of a launcher invocation: for each part of a profile, the
//! tokens it contributes and the function that appends them.

use crate::profile::{BindConfig, BindRule, Config, Profile};
use crate::text::{decimal, decimal_string, push_token};
use crate::variables::Bindings;
use vstd::prelude::*;

verus! {

/// A token list in its mathematical view.
pub type Tokens = Seq<Seq<char>>;

/// The isolation switches of the launcher. Each is emitted unless the
/// profile relaxes it.
#[derive(Clone, Copy, Debug, PartialEq, Eq, Structural)]
pub enum Switch {
    UnshareIpc,
    UnsharePid,
    UnshareUser,
    UnshareNet,
    UnshareCgroup,
    UnshareUts,
    ClearEnv,
    DieWithParent,
}

impl Switch {
    /// The launcher flag of the switch.
    pub open spec fn token(self) -> Seq<char> {
        match self {
            Switch::UnshareIpc => "--unshare-ipc"@,
            Switch::UnsharePid => "--unshare-pid"@,
            Switch::UnshareUser => "--unshare-user"@,
            Switch::UnshareNet => "--unshare-net"@,
            Switch::UnshareCgroup => "--unshare-cgroup"@,
            Switch::UnshareUts => "--unshare-uts"@,
            Switch::ClearEnv => "--clearenv"@,
            Switch::DieWithParent => "--die-with-parent"@,
        }
    }

    /// Whether the profile relaxes the switch: the boolean field that
    /// governs it is set.
    pub open spec fn relaxed(self, profile: Profile) -> bool {
        match self {
            Switch::UnshareIpc => profile.share_ipc,
            Switch::UnsharePid => profile.share_pid,
            Switch::UnshareUser => profile.share_user,
            Switch::UnshareNet => profile.share_net,
            Switch::UnshareCgroup => profile.share_cgroup,
            Switch::UnshareUts => profile.share_uts,
            Switch::ClearEnv => profile.share_env,
            Switch::DieWithParent => profile.keep_alive,
        }
    }

    /// What the switch contributes: its flag, unless the profile relaxes it.
    pub open spec fn tokens(self, profile: Profile) -> Tokens {
        if self.relaxed(profile) {
            Seq::empty()
        } else {
            seq![self.token()]
        }
    }
}

/// The isolation section: one flag for each switch that the profile does not
/// relax, in a fixed order.
pub open spec fn isolation_tokens(profile: Profile) -> Tokens {
    Switch::UnshareIpc.tokens(profile) + Switch::UnsharePid.tokens(profile)
        + Switch::UnshareUser.tokens(profile) + Switch::UnshareNet.tokens(profile)
        + Switch::UnshareCgroup.tokens(profile) + Switch::UnshareUts.tokens(profile)
        + Switch::ClearEnv.tokens(profile) + Switch::DieWithParent.tokens(profile)
}

/// The tmpfs mounts: a flag and the path for each, in list order.
pub open spec fn tmpfs_tokens(paths: Seq<Seq<char>>) -> Tokens
    decreases paths.len(),
{
    if paths.len() == 0 {
        Seq::empty()
    } else {
        tmpfs_tokens(paths.drop_last()) + seq!["--tmpfs"@, paths.last()]
    }
}

/// The proc mount, if the profile gives its path.
pub open spec fn procfs_tokens(path: Option<Seq<char>>) -> Tokens {
    match path {
        Some(path) => seq!["--proc"@, path],
        None => Seq::empty(),
    }
}

/// The mount section: the proc mount, then the tmpfs mounts.
pub open spec fn mount_tokens(profile: Profile) -> Tokens {
    procfs_tokens(profile.procfs) + tmpfs_tokens(profile.tmpfs)
}

/// A numeric identity override: the flag and the number in decimal.
pub open spec fn id_tokens(flag: Seq<char>, id: Option<u16>) -> Tokens {
    match id {
        Some(id) => seq![flag, decimal(id as nat)],
        None => Seq::empty(),
    }
}

/// The hostname override.
pub open spec fn hostname_tokens(hostname: Option<Seq<char>>) -> Tokens {
    match hostname {
        Some(name) => seq!["--hostname"@, name],
        None => Seq::empty(),
    }
}

/// The identity section: uid, gid and hostname, each if the profile
/// overrides it.
pub open spec fn identity_tokens(profile: Profile) -> Tokens {
    id_tokens("--uid"@, profile.uid) + id_tokens("--gid"@, profile.gid) + hostname_tokens(
        profile.hostname,
    )
}

/// The environment section: a flag, the name and the value for each
/// variable, in list order.
pub open spec fn setenv_tokens(env: Bindings) -> Tokens
    decreases env.len(),
{
    if env.len() == 0 {
        Seq::empty()
    } else {
        setenv_tokens(env.drop_last()) + seq!["--setenv"@, env.last().0, env.last().1]
    }
}

/// The flag of a bind rule, by its two flags: read-only or read-write, and
/// failing or tolerant of a missing source.
pub open spec fn bind_flag(rule: BindRule) -> Seq<char> {
    if rule.rw {
        if rule.no_fail {
            "--bind-try"@
        } else {
            "--bind"@
        }
    } else {
        if rule.no_fail {
            "--ro-bind-try"@
        } else {
            "--ro-bind"@
        }
    }
}

/// The flag of a device bind rule. Only tolerance of a missing source
/// matters.
pub open spec fn dev_bind_flag(rule: BindRule) -> Seq<char> {
    if rule.no_fail {
        "--dev-bind-try"@
    } else {
        "--dev-bind"@
    }
}

/// The tokens of one bind rule: its flag, the source and the destination.
pub open spec fn bind_rule_tokens(rule: BindRule) -> Tokens {
    seq![bind_flag(rule), rule.src, rule.dest]
}

/// The tokens of one device bind rule.
pub open spec fn dev_bind_rule_tokens(rule: BindRule) -> Tokens {
    seq![dev_bind_flag(rule), rule.src, rule.dest]
}

/// A bind section: the tokens of each rule, in list order.
pub open spec fn bind_tokens(rules: Seq<BindRule>) -> Tokens
    decreases rules.len(),
{
    if rules.len() == 0 {
        Seq::empty()
    } else {
        bind_tokens(rules.drop_last()) + bind_rule_tokens(rules.last())
    }
}

/// The device bind section: the tokens of each rule, in list order.
pub open spec fn dev_bind_tokens(rules: Seq<BindRule>) -> Tokens
    decreases rules.len(),
{
    if rules.len() == 0 {
        Seq::empty()
    } else {
        dev_bind_tokens(rules.drop_last()) + dev_bind_rule_tokens(rules.last())
    }
}

/// The unset section: a flag and the name for each variable to remove, in
/// list order.
pub open spec fn unset_tokens(names: Seq<Seq<char>>) -> Tokens
    decreases names.len(),
{
    if names.len() == 0 {
        Seq::empty()
    } else {
        unset_tokens(names.drop_last()) + seq!["--unsetenv"@, names.last()]
    }
}

/// The symlink section: a flag, the target and the link path for each pair,
/// in list order.
pub open spec fn symlink_tokens(pairs: Seq<(Seq<char>, Seq<char>)>) -> Tokens
    decreases pairs.len(),
{
    if pairs.len() == 0 {
        Seq::empty()
    } else {
        symlink_tokens(pairs.drop_last()) + seq!["--symlink"@, pairs.last().0, pairs.last().1]
    }
}

impl Switch {
    /// The launcher flag of the switch.
    pub fn flag(&self) -> (flag: &'static str)
        ensures
            flag@ == self.token(),
    {
        match self {
            Switch::UnshareIpc => "--unshare-ipc",
            Switch::UnsharePid => "--unshare-pid",
            Switch::UnshareUser => "--unshare-user",
            Switch::UnshareNet => "--unshare-net",
            Switch::UnshareCgroup => "--unshare-cgroup",
            Switch::UnshareUts => "--unshare-uts",
            Switch::ClearEnv => "--clearenv",
            Switch::DieWithParent => "--die-with-parent",
        }
    }

    /// Whether the profile relaxes the switch.
    pub fn is_relaxed(&self, profile: &Config) -> (relaxed: bool)
        ensures
            relaxed == self.relaxed(profile@),
    {
        match self {
            Switch::UnshareIpc => profile.share_ipc,
            Switch::UnsharePid => profile.share_pid,
            Switch::UnshareUser => profile.share_user,
            Switch::UnshareNet => profile.share_net,
            Switch::UnshareCgroup => profile.share_cgroup,
            Switch::UnshareUts => profile.share_uts,
            Switch::ClearEnv => profile.share_env,
            Switch::DieWithParent => profile.keep_alive,
        }
    }
}

/// Concatenation of token lists is associative.
pub proof fn lemma_concat_assoc(a: Tokens, b: Tokens, c: Tokens)
    ensures
        (a + b) + c == a + (b + c),
{
    assert((a + b) + c =~= a + (b + c));
}

fn push_switch(tokens: &mut Vec<String>, switch: Switch, profile: &Config)
    ensures
        final(tokens).deep_view() == old(tokens).deep_view() + switch.tokens(profile@),
{
    if !switch.is_relaxed(profile) {
        push_token(tokens, switch.flag());
    }
    assert(tokens.deep_view() =~= old(tokens).deep_view() + switch.tokens(profile@));
}

fn push_pair(tokens: &mut Vec<String>, flag: &str, value: &str)
    ensures
        final(tokens).deep_view() == old(tokens).deep_view() + seq![flag@, value@],
{
    push_token(tokens, flag);
    push_token(tokens, value);
    assert(tokens.deep_view() =~= old(tokens).deep_view() + seq![flag@, value@]);
}

fn push_triple(tokens: &mut Vec<String>, flag: &str, first: &str, second: &str)
    ensures
        final(tokens).deep_view() == old(tokens).deep_view() + seq![flag@, first@, second@],
{
    push_token(tokens, flag);
    push_token(tokens, first);
    push_token(tokens, second);
    assert(tokens.deep_view() =~= old(tokens).deep_view() + seq![flag@, first@, second@]);
}

/// Appends the isolation section of a profile.
pub fn emit_isolation(tokens: &mut Vec<String>, profile: &Config)
    ensures
        final(tokens).deep_view() == old(tokens).deep_view() + isolation_tokens(profile@),
{
    let ghost base = tokens.deep_view();
    let ghost p = profile@;
    push_switch(tokens, Switch::UnshareIpc, profile);
    let ghost done = Switch::UnshareIpc.tokens(p);
    push_switch(tokens, Switch::UnsharePid, profile);
    proof {
        lemma_concat_assoc(base, done, Switch::UnsharePid.tokens(p));
    }
    let ghost done = done + Switch::UnsharePid.tokens(p);
    push_switch(tokens, Switch::UnshareUser, profile);
    proof {
        lemma_concat_assoc(base, done, Switch::UnshareUser.tokens(p));
    }
    let ghost done = done + Switch::UnshareUser.tokens(p);
    push_switch(tokens, Switch::UnshareNet, profile);
    proof {
        lemma_concat_assoc(base, done, Switch::UnshareNet.tokens(p));
    }
    let ghost done = done + Switch::UnshareNet.tokens(p);
    push_switch(tokens, Switch::UnshareCgroup, profile);
    proof {
        lemma_concat_assoc(base, done, Switch::UnshareCgroup.tokens(p));
    }
    let ghost done = done + Switch::UnshareCgroup.tokens(p);
    push_switch(tokens, Switch::UnshareUts, profile);
    proof {
        lemma_concat_assoc(base, done, Switch::UnshareUts.tokens(p));
    }
    let ghost done = done + Switch::UnshareUts.tokens(p);
    push_switch(tokens, Switch::ClearEnv, profile);
    proof {
        lemma_concat_assoc(base, done, Switch::ClearEnv.tokens(p));
    }
    let ghost done = done + Switch::ClearEnv.tokens(p);
    push_switch(tokens, Switch::DieWithParent, profile);
    proof {
        lemma_concat_assoc(base, done, Switch::DieWithParent.tokens(p));
    }
}

/// Appends the mount section of a profile.
pub fn emit_mounts(tokens: &mut Vec<String>, profile: &Config)
    ensures
        final(tokens).deep_view() == old(tokens).deep_view() + mount_tokens(profile@),
{
    match &profile.procfs {
        Some(path) => {
            push_pair(tokens, "--proc", path.as_str());
        },
        None => {},
    }
    let ghost base = tokens.deep_view();
    assert(base =~= old(tokens).deep_view() + procfs_tokens(profile@.procfs));
    match &profile.tmpfs {
        Some(paths) => {
            let ghost all = paths.deep_view();
            let mut i: usize = 0;
            while i < paths.len()
                invariant
                    i <= paths.len(),
                    all == paths.deep_view(),
                    tokens.deep_view() == base + tmpfs_tokens(all.take(i as int)),
                decreases paths.len() - i,
            {
                push_pair(tokens, "--tmpfs", paths[i].as_str());
                proof {
                    assert(all.take(i + 1).drop_last() =~= all.take(i as int));
                    assert(tokens.deep_view() =~= base + tmpfs_tokens(all.take(i + 1)));
                }
                i += 1;
            }
            assert(all.take(i as int) =~= all);
        },
        None => {},
    }
    assert(tokens.deep_view() =~= old(tokens).deep_view() + mount_tokens(profile@));
}

/// Appends the identity section of a profile.
pub fn emit_identity(tokens: &mut Vec<String>, profile: &Config)
    ensures
        final(tokens).deep_view() == old(tokens).deep_view() + identity_tokens(profile@),
{
    match profile.uid {
        Some(uid) => {
            let digits = decimal_string(uid as u32);
            push_pair(tokens, "--uid", digits.as_str());
        },
        None => {},
    }
    match profile.gid {
        Some(gid) => {
            let digits = decimal_string(gid as u32);
            push_pair(tokens, "--gid", digits.as_str());
        },
        None => {},
    }
    match &profile.hostname {
        Some(name) => {
            push_pair(tokens, "--hostname", name.as_str());
        },
        None => {},
    }
    assert(tokens.deep_view() =~= old(tokens).deep_view() + identity_tokens(profile@));
}

/// Appends the environment section for a list of variables.
pub fn emit_setenv(tokens: &mut Vec<String>, env: &Vec<(String, String)>)
    ensures
        final(tokens).deep_view() == old(tokens).deep_view() + setenv_tokens(env.deep_view()),
{
    let ghost base = tokens.deep_view();
    let ghost all = env.deep_view();
    let mut i: usize = 0;
    assert(base =~= base + setenv_tokens(all.take(0)));
    while i < env.len()
        invariant
            i <= env.len(),
            all == env.deep_view(),
            tokens.deep_view() == base + setenv_tokens(all.take(i as int)),
        decreases env.len() - i,
    {
        push_triple(tokens, "--setenv", env[i].0.as_str(), env[i].1.as_str());
        proof {
            assert(all.take(i + 1).drop_last() =~= all.take(i as int));
            assert(tokens.deep_view() =~= base + setenv_tokens(all.take(i + 1)));
        }
        i += 1;
    }
    assert(all.take(i as int) =~= all);
}

fn bind_flag_of(rule: &BindConfig) -> (flag: &'static str)
    ensures
        flag@ == bind_flag(rule@),
{
    if rule.rw {
        if rule.no_fail {
            "--bind-try"
        } else {
            "--bind"
        }
    } else {
        if rule.no_fail {
            "--ro-bind-try"
        } else {
            "--ro-bind"
        }
    }
}

fn dev_bind_flag_of(rule: &BindConfig) -> (flag: &'static str)
    ensures
        flag@ == dev_bind_flag(rule@),
{
    if rule.no_fail {
        "--dev-bind-try"
    } else {
        "--dev-bind"
    }
}

/// Appends a bind section for a list of rules.
pub fn emit_binds(tokens: &mut Vec<String>, rules: &Vec<BindConfig>)
    ensures
        final(tokens).deep_view() == old(tokens).deep_view() + bind_tokens(rules.deep_view()),
{
    let ghost base = tokens.deep_view();
    let ghost all = rules.deep_view();
    let mut i: usize = 0;
    assert(base =~= base + bind_tokens(all.take(0)));
    while i < rules.len()
        invariant
            i <= rules.len(),
            all == rules.deep_view(),
            tokens.deep_view() == base + bind_tokens(all.take(i as int)),
        decreases rules.len() - i,
    {
        let rule = &rules[i];
        push_triple(tokens, bind_flag_of(rule), rule.src.as_str(), rule.dest.as_str());
        proof {
            assert(all.take(i + 1).drop_last() =~= all.take(i as int));
            assert(tokens.deep_view() =~= base + bind_tokens(all.take(i + 1)));
        }
        i += 1;
    }
    assert(all.take(i as int) =~= all);
}

/// Appends the device bind section for a list of rules.
pub fn emit_dev_binds(tokens: &mut Vec<String>, rules: &Vec<BindConfig>)
    ensures
        final(tokens).deep_view() == old(tokens).deep_view() + dev_bind_tokens(rules.deep_view()),
{
    let ghost base = tokens.deep_view();
    let ghost all = rules.deep_view();
    let mut i: usize = 0;
    assert(base =~= base + dev_bind_tokens(all.take(0)));
    while i < rules.len()
        invariant
            i <= rules.len(),
            all == rules.deep_view(),
            tokens.deep_view() == base + dev_bind_tokens(all.take(i as int)),
        decreases rules.len() - i,
    {
        let rule = &rules[i];
        push_triple(tokens, dev_bind_flag_of(rule), rule.src.as_str(), rule.dest.as_str());
        proof {
            assert(all.take(i + 1).drop_last() =~= all.take(i as int));
            assert(tokens.deep_view() =~= base + dev_bind_tokens(all.take(i + 1)));
        }
        i += 1;
    }
    assert(all.take(i as int) =~= all);
}

/// Appends the unset section for a list of variable names.
pub fn emit_unset(tokens: &mut Vec<String>, names: &Vec<String>)
    ensures
        final(tokens).deep_view() == old(tokens).deep_view() + unset_tokens(names.deep_view()),
{
    let ghost base = tokens.deep_view();
    let ghost all = names.deep_view();
    let mut i: usize = 0;
    assert(base =~= base + unset_tokens(all.take(0)));
    while i < names.len()
        invariant
            i <= names.len(),
            all == names.deep_view(),
            tokens.deep_view() == base + unset_tokens(all.take(i as int)),
        decreases names.len() - i,
    {
        push_pair(tokens, "--unsetenv", names[i].as_str());
        proof {
            assert(all.take(i + 1).drop_last() =~= all.take(i as int));
            assert(tokens.deep_view() =~= base + unset_tokens(all.take(i + 1)));
        }
        i += 1;
    }
    assert(all.take(i as int) =~= all);
}

/// Appends the symlink section for a list of pairs.
pub fn emit_symlinks(tokens: &mut Vec<String>, pairs: &Vec<(String, String)>)
    ensures
        final(tokens).deep_view() == old(tokens).deep_view() + symlink_tokens(pairs.deep_view()),
{
    let ghost base = tokens.deep_view();
    let ghost all = pairs.deep_view();
    let mut i: usize = 0;
    assert(base =~= base + symlink_tokens(all.take(0)));
    while i < pairs.len()
        invariant
            i <= pairs.len(),
            all == pairs.deep_view(),
            tokens.deep_view() == base + symlink_tokens(all.take(i as int)),
        decreases pairs.len() - i,
    {
        push_triple(tokens, "--symlink", pairs[i].0.as_str(), pairs[i].1.as_str());
        proof {
            assert(all.take(i + 1).drop_last() =~= all.take(i as int));
            assert(tokens.deep_view() =~= base + symlink_tokens(all.take(i + 1)));
        }
        i += 1;
    }
    assert(all.take(i as int) =~= all);
}

} // verus!
