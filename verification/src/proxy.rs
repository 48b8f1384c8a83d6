//! The command line of the bus-filtering proxy and the paths through which
//! the sandboxed process reaches it.

use crate::ambient::{Ambient, AmbientVar, AmbientView};
use crate::error::LaunchError;
use crate::profile::{BusFilter, DBusProxyConfig};
use crate::sections::Tokens;
use crate::text::{
    concat2,
    concat3,
    decimal,
    decimal_string,
    lemma_decimal_injective,
    push_token,
};
use vstd::prelude::*;

verus! {

/// The program that filters bus traffic.
pub const PROXY_PROGRAM: &'static str = "xdg-dbus-proxy";

/// The socket on which the proxy listens: a path inside the runtime
/// directory that carries the process identifier of the supervisor, so that
/// concurrent runs on one host do not collide.
pub open spec fn proxy_socket_path(runtime_dir: Seq<char>, pid: u32) -> Seq<char> {
    runtime_dir + "/dbus-proxy-"@ + decimal(pid as nat)
}

/// The fixed path at which the sandboxed process finds the bus socket.
pub open spec fn sandbox_bus_path(runtime_dir: Seq<char>) -> Seq<char> {
    runtime_dir + "/bus"@
}

/// The bus address handed to the sandboxed process: the fixed socket path
/// as a unix address.
pub open spec fn sandbox_bus_address(runtime_dir: Seq<char>) -> Seq<char> {
    "unix:path="@ + sandbox_bus_path(runtime_dir)
}

/// One filter token for each bus name, in list order: the prefix and the
/// name.
pub open spec fn filter_tokens(prefix: Seq<char>, names: Seq<Seq<char>>) -> Tokens
    decreases names.len(),
{
    if names.len() == 0 {
        Seq::empty()
    } else {
        filter_tokens(prefix, names.drop_last()).push(prefix + names.last())
    }
}

/// The arguments of the proxy: the address of the host bus, the socket to
/// listen on, the filter marker, then one token for each name the sandboxed
/// process may own and one for each name it may call.
pub open spec fn proxy_tokens(
    bus_address: Seq<char>,
    socket_path: Seq<char>,
    filter: BusFilter,
) -> Tokens {
    seq![bus_address, socket_path, "--filter"@] + filter_tokens("--own="@, filter.own)
        + filter_tokens("--talk="@, filter.talk)
}

/// The ambient variable whose absence keeps the proxy from being set up, if
/// there is one: the runtime directory, then the bus address.
pub open spec fn proxy_missing(ambient: AmbientView) -> Option<AmbientVar> {
    if ambient.runtime_dir is None {
        Some(AmbientVar::RuntimeDir)
    } else if ambient.bus_address is None {
        Some(AmbientVar::BusAddress)
    } else {
        None
    }
}

/// How to start the proxy for one run.
#[derive(Clone, Debug, PartialEq, Eq)]
pub struct ProxySetup {
    /// The arguments of the proxy program.
    pub tokens: Vec<String>,
    /// The socket whose appearance signals that the proxy is listening, and
    /// which is removed when the run ends.
    pub socket_path: String,
}

/// The mathematical view of a [`ProxySetup`].
pub struct ProxySetupView {
    pub tokens: Tokens,
    pub socket_path: Seq<char>,
}

impl View for ProxySetup {
    type V = ProxySetupView;

    open spec fn view(&self) -> ProxySetupView {
        ProxySetupView { tokens: self.tokens.deep_view(), socket_path: self.socket_path@ }
    }
}

/// The setup of the proxy for a filter, an environment that holds both
/// variables, and a process identifier.
pub open spec fn proxy_setup_of(filter: BusFilter, ambient: AmbientView, pid: u32) -> ProxySetupView
    recommends
        proxy_missing(ambient) is None,
{
    let socket_path = proxy_socket_path(ambient.runtime_dir->0, pid);
    ProxySetupView {
        tokens: proxy_tokens(ambient.bus_address->0, socket_path, filter),
        socket_path,
    }
}

/// There is one filter token for each name, at the place of the name.
pub proof fn lemma_filter_tokens_at(prefix: Seq<char>, names: Seq<Seq<char>>, i: int)
    requires
        0 <= i < names.len(),
    ensures
        filter_tokens(prefix, names).len() == names.len(),
        filter_tokens(prefix, names)[i] == prefix + names[i],
    decreases names.len(),
{
    lemma_filter_tokens_len(prefix, names);
    if i < names.len() - 1 {
        lemma_filter_tokens_at(prefix, names.drop_last(), i);
    }
}

/// There is one filter token for each name.
pub proof fn lemma_filter_tokens_len(prefix: Seq<char>, names: Seq<Seq<char>>)
    ensures
        filter_tokens(prefix, names).len() == names.len(),
    decreases names.len(),
{
    if names.len() > 0 {
        lemma_filter_tokens_len(prefix, names.drop_last());
    }
}

/// The arguments of the proxy are the address of the host bus, the socket
/// and the filter marker, then one `--own=` token for each name the
/// sandboxed process may own and one `--talk=` token for each name it may
/// call, each list in its order.
pub proof fn lemma_proxy_tokens_shape(
    bus_address: Seq<char>,
    socket_path: Seq<char>,
    filter: BusFilter,
)
    ensures
        ({
            let tokens = proxy_tokens(bus_address, socket_path, filter);
            &&& tokens.len() == 3 + filter.own.len() + filter.talk.len()
            &&& tokens[0] == bus_address
            &&& tokens[1] == socket_path
            &&& tokens[2] == "--filter"@
            &&& forall|i: int|
                0 <= i < filter.own.len() ==> #[trigger] tokens[3 + i] == "--own="@
                    + filter.own[i]
            &&& forall|j: int|
                0 <= j < filter.talk.len() ==> #[trigger] tokens[3 + filter.own.len() + j]
                    == "--talk="@ + filter.talk[j]
        }),
{
    let tokens = proxy_tokens(bus_address, socket_path, filter);
    lemma_filter_tokens_len("--own="@, filter.own);
    lemma_filter_tokens_len("--talk="@, filter.talk);
    assert forall|i: int| 0 <= i < filter.own.len() implies #[trigger] tokens[3 + i] == "--own="@
        + filter.own[i] by {
        lemma_filter_tokens_at("--own="@, filter.own, i);
    }
    assert forall|j: int| 0 <= j < filter.talk.len() implies #[trigger] tokens[3
        + filter.own.len() + j] == "--talk="@ + filter.talk[j] by {
        lemma_filter_tokens_at("--talk="@, filter.talk, j);
    }
}

/// Runs with different process identifiers listen on different sockets,
/// whatever the runtime directory: concurrent runs on one host do not
/// collide.
pub proof fn lemma_socket_path_unique(runtime_dir: Seq<char>, pid: u32, other: u32)
    requires
        proxy_socket_path(runtime_dir, pid) == proxy_socket_path(runtime_dir, other),
    ensures
        pid == other,
{
    let prefix = runtime_dir + "/dbus-proxy-"@;
    let one = proxy_socket_path(runtime_dir, pid);
    let two = proxy_socket_path(runtime_dir, other);
    assert(one.subrange(prefix.len() as int, one.len() as int) =~= decimal(pid as nat));
    assert(two.subrange(prefix.len() as int, two.len() as int) =~= decimal(other as nat));
    lemma_decimal_injective(pid as nat, other as nat);
}

/// Computes the socket path of the proxy.
pub fn socket_path_for(runtime_dir: &str, pid: u32) -> (path: String)
    ensures
        path@ == proxy_socket_path(runtime_dir@, pid),
{
    let digits = decimal_string(pid);
    concat3(runtime_dir, "/dbus-proxy-", digits.as_str())
}

/// Computes the path at which the sandboxed process finds the bus socket.
pub fn bus_path_for(runtime_dir: &str) -> (path: String)
    ensures
        path@ == sandbox_bus_path(runtime_dir@),
{
    concat2(runtime_dir, "/bus")
}

/// Computes the bus address handed to the sandboxed process.
pub fn bus_address_for(runtime_dir: &str) -> (address: String)
    ensures
        address@ == sandbox_bus_address(runtime_dir@),
{
    let path = bus_path_for(runtime_dir);
    concat2("unix:path=", path.as_str())
}

fn emit_filter(tokens: &mut Vec<String>, prefix: &str, names: &Vec<String>)
    ensures
        final(tokens).deep_view() == old(tokens).deep_view() + filter_tokens(
            prefix@,
            names.deep_view(),
        ),
{
    let ghost base = tokens.deep_view();
    let ghost all = names.deep_view();
    let mut i: usize = 0;
    assert(base =~= base + filter_tokens(prefix@, all.take(0)));
    while i < names.len()
        invariant
            i <= names.len(),
            all == names.deep_view(),
            tokens.deep_view() == base + filter_tokens(prefix@, all.take(i as int)),
        decreases names.len() - i,
    {
        let token = concat2(prefix, names[i].as_str());
        push_token(tokens, token.as_str());
        proof {
            assert(all.take(i + 1).drop_last() =~= all.take(i as int));
            assert(tokens.deep_view() =~= base + filter_tokens(prefix@, all.take(i + 1)));
        }
        i += 1;
    }
    assert(all.take(i as int) =~= all);
}

/// Computes how to start the proxy for one run.
///
/// Fails when the environment lacks the runtime directory or the address
/// of the host bus. Empty allow-lists are no failure: they give the most
/// restrictive filter.
pub fn proxy_setup(config: &DBusProxyConfig, ambient: &Ambient, pid: u32) -> (setup: Result<
    ProxySetup,
    LaunchError,
>)
    ensures
        match setup {
            Ok(proxy) => {
                &&& proxy_missing(ambient@) is None
                &&& proxy@ == proxy_setup_of(config@, ambient@, pid)
            },
            Err(error) => {
                &&& proxy_missing(ambient@) matches Some(var)
                &&& error == LaunchError::MissingEnvironment(var)
            },
        },
{
    let runtime_dir = match ambient.require(AmbientVar::RuntimeDir) {
        Ok(dir) => dir,
        Err(error) => {
            return Err(error);
        },
    };
    let bus_address = match ambient.require(AmbientVar::BusAddress) {
        Ok(address) => address,
        Err(error) => {
            return Err(error);
        },
    };
    let socket_path = socket_path_for(runtime_dir, pid);
    let mut tokens: Vec<String> = Vec::new();
    push_token(&mut tokens, bus_address);
    push_token(&mut tokens, socket_path.as_str());
    push_token(&mut tokens, "--filter");
    assert(tokens.deep_view() =~= seq![bus_address@, socket_path@, "--filter"@]);
    emit_filter(&mut tokens, "--own=", &config.own);
    emit_filter(&mut tokens, "--talk=", &config.talk);
    Ok(ProxySetup { tokens, socket_path })
}

} // verus!
