use vstd::prelude::*;

use crate::Error;

verus! {

/// The view of an invocation's argument list: each argument as its text.
pub open spec fn args_view(args: Vec<String>) -> Seq<Seq<char>> {
    args@.map_values(|s: String| s@)
}

/// What one run of the platform configuration tool produced: its captured
/// standard output as text, and whether its exit status reported success.
pub struct ToolOutput {
    pub stdout: String,
    pub success: bool,
}

/// A local network interface: its device identifier and the addresses bound
/// to it, each address as the text of its IP (ports play no part here).
#[derive(Debug, Clone)]
pub struct NetInterface {
    pub name: String,
    pub addresses: Vec<String>,
}

/// The platform facilities this library drives: the network-configuration
/// tool, the outbound-route probe and interface enumeration.
///
/// Implementations perform real I/O and are outside this library; no method
/// carries a contract, so everything proved here holds whatever an
/// implementation answers.
pub trait System {
    /// Run the configuration tool with the given arguments and capture what
    /// it printed; output that cannot be read as text is an error.
    fn invoke(&mut self, args: &Vec<String>) -> Result<ToolOutput, Error>;

    /// The text of the local IP address through which the system currently
    /// routes default outbound traffic.
    fn local_route_ip(&mut self) -> Result<String, Error>;

    /// All local network interfaces.
    fn interfaces(&mut self) -> Result<Vec<NetInterface>, Error>;
}

} // verus!
