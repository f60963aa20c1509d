use vstd::prelude::*;

use crate::parse::{empty_sentinel, parse_dns_output};
use crate::system::{args_view, System, ToolOutput};
use crate::{Error, SysDNS};

verus! {

/// The server value handed to the configuration tool when applying `dns`:
/// the sentinel token when DNS is disabled, the configured server text
/// verbatim otherwise.
pub open spec fn set_argument(dns: SysDNS) -> Seq<char> {
    if dns.enable {
        dns.server@
    } else {
        empty_sentinel()
    }
}

/// Compute the server argument for applying `dns`.
pub fn dns_server_argument(dns: &SysDNS) -> (r: String)
    ensures
        r@ == set_argument(*dns),
{
    if dns.enable {
        dns.server.clone()
    } else {
        "Empty".to_owned()
    }
}

/// The invocation that writes `server` as the DNS servers of `service`.
pub open spec fn set_dns_args(service: Seq<char>, server: Seq<char>) -> Seq<Seq<char>> {
    seq!["-setdnsservers"@, service, server]
}

/// Build the invocation that applies `dns` to `service`: the write command,
/// the service, and the server argument of `dns`.
pub fn build_set_dns_args(service: &str, dns: &SysDNS) -> (r: Vec<String>)
    ensures
        args_view(r) == set_dns_args(service@, set_argument(*dns)),
{
    let args = vec!["-setdnsservers".to_owned(), service.to_owned(), dns_server_argument(dns)];
    proof {
        assert(args_view(args) =~= set_dns_args(service@, set_argument(*dns)));
    }
    args
}

/// The outcome of a write, judged by the tool's exit status alone: success
/// exactly when the exit status reported success, a failing exit surfacing
/// as an I/O-class error, the tool's output never interpreted.
pub fn set_outcome(out: &ToolOutput) -> (r: Result<(), Error>)
    ensures
        r is Ok <==> out.success,
        r matches Err(e) ==> e is Io,
{
    if out.success {
        Ok(())
    } else {
        Err(Error::Io("the configuration tool reported failure".to_owned()))
    }
}

/// Write `dns` to the named service through the configuration tool. Only the
/// tool's exit status is consulted: an unsuccessful exit is an I/O failure,
/// its output is not interpreted.
pub fn set_dns<S: System>(sys: &mut S, dns: &SysDNS, service: &str) -> (r: Result<(), Error>) {
    let args = build_set_dns_args(service, dns);
    let out = match sys.invoke(&args) {
        Ok(o) => o,
        Err(e) => return Err(e),
    };
    set_outcome(&out)
}

/// The invocation that reads the DNS servers of `service`.
pub open spec fn get_dns_args(service: Seq<char>) -> Seq<Seq<char>> {
    seq!["-getdnsservers"@, service]
}

/// Build the invocation that queries the DNS servers of `service`.
pub fn build_get_dns_args(service: &str) -> (r: Vec<String>)
    ensures
        args_view(r) == get_dns_args(service@),
{
    let args = vec!["-getdnsservers".to_owned(), service.to_owned()];
    proof {
        assert(args_view(args) =~= get_dns_args(service@));
    }
    args
}

/// Read the DNS configuration of the named service through the configuration
/// tool. Whatever text the tool answers, the result is a well-formed
/// configuration and is exactly what that text parses to.
pub fn get_dns<S: System>(sys: &mut S, service: &str) -> (r: Result<SysDNS, Error>)
    ensures
        r matches Ok(d) ==> d.wf(),
{
    let args = build_get_dns_args(service);
    let out = match sys.invoke(&args) {
        Ok(o) => o,
        Err(e) => return Err(e),
    };
    Ok(parse_dns_output(out.stdout.as_str()))
}

} // verus!
