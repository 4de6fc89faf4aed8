//! The command that points an interface's DNS servers at the tunnel, or
//! hands them back to automatic configuration.

use vstd::prelude::*;
use vstd::string::*;
use crate::interface::{active_name, resolve_active_interface, NetworkInterface};

verus! {

/// The program that changes the host's network settings.
pub const DNS_PROGRAM: &'static str = "networksetup";

/// The option of `DNS_PROGRAM` that sets an interface's DNS servers.
pub const DNS_OPTION: &'static str = "-setdnsservers";

/// The DNS server that answers while the tunnel is up.
pub const ACTIVATION_ADDRESS: &'static str = "198.18.0.2";

/// The value that clears the override and returns the interface to
/// automatic DNS configuration.
pub const RESTORE_SENTINEL: &'static str = "empty";

/// What the DNS servers of the active interface are set to.
#[derive(Clone, Copy, Debug, PartialEq, Eq, Structural)]
pub enum DnsTarget {
    /// The tunnel's resolver.
    Activate,
    /// Automatic configuration.
    Restore,
}

/// The value that stands for a target on the command line.
pub open spec fn target_value(target: DnsTarget) -> Seq<char> {
    match target {
        DnsTarget::Activate => ACTIVATION_ADDRESS@,
        DnsTarget::Restore => RESTORE_SENTINEL@,
    }
}

impl DnsTarget {
    /// The value that stands for this target on the command line.
    pub fn value(&self) -> (v: &'static str)
        ensures
            v@ == target_value(*self),
    {
        match self {
            DnsTarget::Activate => ACTIVATION_ADDRESS,
            DnsTarget::Restore => RESTORE_SENTINEL,
        }
    }
}

/// A command to run: the program and its arguments in order.
#[derive(Clone, Debug)]
pub struct DnsCommand {
    pub program: String,
    pub args: Vec<String>,
}

/// A `DnsCommand` as plain sequences of characters.
pub struct DnsCommandView {
    pub program: Seq<char>,
    pub args: Seq<Seq<char>>,
}

impl View for DnsCommand {
    type V = DnsCommandView;

    open spec fn view(&self) -> DnsCommandView {
        DnsCommandView { program: self.program@, args: self.args.deep_view() }
    }
}

/// The command that sets the DNS servers of `interface` to `value`.
pub open spec fn command_for(interface: Seq<char>, value: Seq<char>) -> DnsCommandView {
    DnsCommandView { program: DNS_PROGRAM@, args: seq![DNS_OPTION@, interface, value] }
}

/// The command that `set_dns` gives for a list of interfaces: that for the
/// active interface's name, and none where no name resolves.
pub open spec fn dns_command(list: Seq<NetworkInterface>, value: Seq<char>) -> Option<
    DnsCommandView,
> {
    match active_name(list) {
        Some(name) => Some(command_for(name, value)),
        None => None,
    }
}

/// The view of an optional command.
pub open spec fn command_view(c: Option<DnsCommand>) -> Option<DnsCommandView> {
    match c {
        Some(c) => Some(c@),
        None => None,
    }
}

/// Builds the command that sets the DNS servers of `interface` to `value`.
pub fn command(interface: &str, value: &str) -> (c: DnsCommand)
    ensures
        c@ == command_for(interface@, value@),
{
    let mut args: Vec<String> = Vec::new();
    args.push(String::from_str(DNS_OPTION));
    args.push(String::from_str(interface));
    args.push(String::from_str(value));
    let c = DnsCommand { program: String::from_str(DNS_PROGRAM), args };
    proof {
        assert(c.args.deep_view() =~= seq![DNS_OPTION@, interface@, value@]);
    }
    c
}

/// The command that sets the DNS servers of the active interface among
/// `interfaces` to `dns`. Where no interface resolves there is nothing to
/// run, which is no failure.
pub fn set_dns(interfaces: &Vec<NetworkInterface>, dns: &str) -> (c: Option<DnsCommand>)
    ensures
        command_view(c) == dns_command(interfaces@, dns@),
{
    match resolve_active_interface(interfaces) {
        Some(name) => Some(command(name.as_str(), dns)),
        None => None,
    }
}

} // verus!
