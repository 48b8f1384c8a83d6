use sandbox_launcher::ambient::{Ambient, AmbientVar};
use sandbox_launcher::cli::{parse_arguments, usage, CommandLine};
use sandbox_launcher::error::LaunchError;
use sandbox_launcher::sections::{
    emit_binds, emit_dev_binds, emit_identity, emit_isolation, emit_mounts, emit_setenv,
    emit_symlinks, emit_unset, Switch,
};
use sandbox_launcher::profile::{BindConfig, Config};
use sandbox_launcher::text::{
    concat2, concat3, decimal_string, push_token, signed_decimal_string,
};
use sandbox_launcher::variables::{set_variable, set_variables};

fn owned(items: &[&str]) -> Vec<String> {
    items.iter().map(|item| item.to_string()).collect()
}

fn owned_pairs(items: &[(&str, &str)]) -> Vec<(String, String)> {
    items.iter().map(|(a, b)| (a.to_string(), b.to_string())).collect()
}

#[test]
fn decimal_numerals() {
    assert_eq!(decimal_string(0), "0");
    assert_eq!(decimal_string(7), "7");
    assert_eq!(decimal_string(9), "9");
    assert_eq!(decimal_string(10), "10");
    assert_eq!(decimal_string(1000), "1000");
    assert_eq!(decimal_string(65535), "65535");
    assert_eq!(decimal_string(1234567890), "1234567890");
    assert_eq!(decimal_string(u32::MAX), "4294967295");
    for n in [0u32, 1, 9, 10, 11, 99, 100, 101, 4096, 99999, 100000, 3000000000] {
        assert_eq!(decimal_string(n), n.to_string());
    }
}

#[test]
fn signed_decimal_numerals() {
    assert_eq!(signed_decimal_string(0), "0");
    assert_eq!(signed_decimal_string(5), "5");
    assert_eq!(signed_decimal_string(-5), "-5");
    assert_eq!(signed_decimal_string(-120), "-120");
    assert_eq!(signed_decimal_string(i32::MAX), "2147483647");
    assert_eq!(signed_decimal_string(i32::MIN), "-2147483648");
}

#[test]
fn concatenation() {
    assert_eq!(concat2("", ""), "");
    assert_eq!(concat2("ab", "cd"), "abcd");
    assert_eq!(concat3("a", "/", "b"), "a/b");
    assert_eq!(concat3("", "x", ""), "x");
    let mut tokens = owned(&["a"]);
    push_token(&mut tokens, "b");
    assert_eq!(tokens, owned(&["a", "b"]));
}

#[test]
fn ambient_variable_names() {
    assert_eq!(AmbientVar::RuntimeDir.name(), "XDG_RUNTIME_DIR");
    assert_eq!(AmbientVar::WaylandDisplay.name(), "WAYLAND_DISPLAY");
    assert_eq!(AmbientVar::XAuthority.name(), "XAUTHORITY");
    assert_eq!(AmbientVar::BusAddress.name(), "DBUS_SESSION_BUS_ADDRESS");
}

#[test]
fn ambient_lookup() {
    let empty = Ambient::empty();
    for var in [
        AmbientVar::RuntimeDir,
        AmbientVar::WaylandDisplay,
        AmbientVar::XAuthority,
        AmbientVar::BusAddress,
    ] {
        assert_eq!(empty.get(var), None);
    }
    let ambient = Ambient {
        runtime_dir: Some("r".to_string()),
        wayland_display: Some("w".to_string()),
        xauthority: Some("x".to_string()),
        bus_address: Some("b".to_string()),
    };
    assert_eq!(ambient.get(AmbientVar::RuntimeDir), Some("r"));
    assert_eq!(ambient.get(AmbientVar::WaylandDisplay), Some("w"));
    assert_eq!(ambient.get(AmbientVar::XAuthority), Some("x"));
    assert_eq!(ambient.get(AmbientVar::BusAddress), Some("b"));
}

#[test]
fn required_variables_fail_by_name() {
    let mut ambient = Ambient::empty();
    ambient.bus_address = Some("unix:path=/b".to_string());
    assert_eq!(ambient.require(AmbientVar::BusAddress), Ok("unix:path=/b"));
    assert_eq!(
        ambient.require(AmbientVar::RuntimeDir),
        Err(LaunchError::MissingEnvironment(AmbientVar::RuntimeDir))
    );
    assert_eq!(
        ambient.require(AmbientVar::XAuthority),
        Err(LaunchError::MissingEnvironment(AmbientVar::XAuthority))
    );
}

#[test]
fn diagnostics() {
    assert_eq!(LaunchError::ConfigParseError.describe(), "malformed profile document");
    assert_eq!(
        LaunchError::MissingEnvironment(AmbientVar::WaylandDisplay).describe(),
        "missing environment variable: WAYLAND_DISPLAY"
    );
    assert_eq!(
        LaunchError::MissingEnvironment(AmbientVar::BusAddress).describe(),
        "missing environment variable: DBUS_SESSION_BUS_ADDRESS"
    );
    assert_eq!(LaunchError::ProxyLaunchFailed.describe(), "launching dbus-proxy failed");
    assert_eq!(
        LaunchError::ProxyExitedEarly(3).describe(),
        "dbus-proxy exited too early: exit status code 3"
    );
    assert_eq!(
        LaunchError::ProxyExitedEarly(-11).describe(),
        "dbus-proxy exited too early: exit status code -11"
    );
    assert_eq!(LaunchError::LaunchFailed.describe(), "launching bwrap failed");
}

#[test]
fn setting_a_new_name_appends() {
    let mut env = owned_pairs(&[("A", "1")]);
    set_variable(&mut env, "B", "2");
    assert_eq!(env, owned_pairs(&[("A", "1"), ("B", "2")]));
    let mut empty: Vec<(String, String)> = Vec::new();
    set_variable(&mut empty, "K", "");
    assert_eq!(empty, owned_pairs(&[("K", "")]));
}

#[test]
fn setting_a_bound_name_replaces_in_place() {
    let mut env = owned_pairs(&[("A", "1"), ("B", "2"), ("C", "3")]);
    set_variable(&mut env, "B", "two");
    assert_eq!(env, owned_pairs(&[("A", "1"), ("B", "two"), ("C", "3")]));
    set_variable(&mut env, "A", "one");
    assert_eq!(env, owned_pairs(&[("A", "one"), ("B", "two"), ("C", "3")]));
}

#[test]
fn setting_many_names_lets_the_last_value_win() {
    let mut env = owned_pairs(&[("X", "0")]);
    set_variables(&mut env, &owned_pairs(&[("A", "1"), ("X", "9"), ("A", "2"), ("B", "3")]));
    assert_eq!(env, owned_pairs(&[("X", "9"), ("A", "2"), ("B", "3")]));
    let before = env.clone();
    set_variables(&mut env, &Vec::new());
    assert_eq!(env, before);
}

#[test]
fn switch_flags() {
    let expected = [
        (Switch::UnshareIpc, "--unshare-ipc"),
        (Switch::UnsharePid, "--unshare-pid"),
        (Switch::UnshareUser, "--unshare-user"),
        (Switch::UnshareNet, "--unshare-net"),
        (Switch::UnshareCgroup, "--unshare-cgroup"),
        (Switch::UnshareUts, "--unshare-uts"),
        (Switch::ClearEnv, "--clearenv"),
        (Switch::DieWithParent, "--die-with-parent"),
    ];
    let isolated = Config::default();
    for (switch, flag) in expected {
        assert_eq!(switch.flag(), flag);
        assert!(!switch.is_relaxed(&isolated));
    }
    let mut profile = Config::default();
    profile.share_uts = true;
    profile.keep_alive = true;
    assert!(Switch::UnshareUts.is_relaxed(&profile));
    assert!(Switch::DieWithParent.is_relaxed(&profile));
    assert!(!Switch::UnshareNet.is_relaxed(&profile));
    assert!(!Switch::ClearEnv.is_relaxed(&profile));
}

#[test]
fn sections_append_to_what_is_there() {
    let mut profile = Config::default();
    profile.share_pid = true;
    profile.procfs = Some("/proc".to_string());
    profile.tmpfs = Some(owned(&["/t"]));
    profile.gid = Some(12);
    profile.hostname = Some("h".to_string());
    let mut tokens = owned(&["first"]);
    emit_isolation(&mut tokens, &profile);
    assert_eq!(tokens.len(), 8);
    assert_eq!(tokens[0], "first");
    assert_eq!(tokens[1], "--unshare-ipc");
    assert_eq!(tokens[2], "--unshare-user");
    let mut tokens = owned(&["first"]);
    emit_mounts(&mut tokens, &profile);
    assert_eq!(tokens, owned(&["first", "--proc", "/proc", "--tmpfs", "/t"]));
    let mut tokens = owned(&["first"]);
    emit_identity(&mut tokens, &profile);
    assert_eq!(tokens, owned(&["first", "--gid", "12", "--hostname", "h"]));
    let mut tokens = owned(&["first"]);
    emit_setenv(&mut tokens, &owned_pairs(&[("A", "1"), ("B", "")]));
    assert_eq!(tokens, owned(&["first", "--setenv", "A", "1", "--setenv", "B", ""]));
    let mut tokens = owned(&["first"]);
    emit_unset(&mut tokens, &owned(&["A", "B"]));
    assert_eq!(tokens, owned(&["first", "--unsetenv", "A", "--unsetenv", "B"]));
    let mut tokens = owned(&["first"]);
    emit_symlinks(&mut tokens, &owned_pairs(&[("t", "l")]));
    assert_eq!(tokens, owned(&["first", "--symlink", "t", "l"]));
    let rules = vec![BindConfig { src: "s".into(), dest: "d".into(), no_fail: true, rw: true }];
    let mut tokens = owned(&["first"]);
    emit_binds(&mut tokens, &rules);
    assert_eq!(tokens, owned(&["first", "--bind-try", "s", "d"]));
    let mut tokens = owned(&["first"]);
    emit_dev_binds(&mut tokens, &rules);
    assert_eq!(tokens, owned(&["first", "--dev-bind-try", "s", "d"]));
}

#[test]
fn too_few_arguments_ask_for_usage() {
    assert_eq!(parse_arguments(&Vec::new()), None);
    assert_eq!(parse_arguments(&owned(&["prog"])), None);
    assert_eq!(parse_arguments(&owned(&["prog", "profile.toml"])), None);
    assert_eq!(usage("prog"), "Usage: prog (profile) (executable) [args...]");
}

#[test]
fn arguments_are_split_after_the_executable() {
    assert_eq!(
        parse_arguments(&owned(&["prog", "profile.toml", "/bin/sh"])),
        Some(CommandLine {
            profile_path: "profile.toml".to_string(),
            executable: "/bin/sh".to_string(),
            args: Vec::new(),
        })
    );
    assert_eq!(
        parse_arguments(&owned(&["prog", "p", "/bin/sh", "-c", "echo", "profile"])),
        Some(CommandLine {
            profile_path: "p".to_string(),
            executable: "/bin/sh".to_string(),
            args: owned(&["-c", "echo", "profile"]),
        })
    );
}
