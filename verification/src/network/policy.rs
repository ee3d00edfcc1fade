//! Network policy helpers.
use vstd::prelude::*;

use crate::data::network::DEFAULT_DNS;
use crate::vm::config::NetworkPolicy;

verus! {

/// The DNS server that a policy leads to.
pub open spec fn dns_server(policy: NetworkPolicy) -> Option<Seq<char>> {
    match policy {
        NetworkPolicy::Disabled => None,
        NetworkPolicy::Egress { dns, allowed_cidrs } => match dns {
            Some(d) => Some(d@),
            None => Some(DEFAULT_DNS@),
        },
    }
}

/// Get the DNS server for a network policy.
pub fn get_dns_server(policy: &NetworkPolicy) -> (r: Option<&str>)
    ensures
        match dns_server(*policy) {
            None => r is None,
            Some(d) => r matches Some(s) && s@ == d,
        },
{
    match policy {
        NetworkPolicy::Disabled => None,
        NetworkPolicy::Egress { dns, allowed_cidrs: _ } => match dns {
            Some(d) => Some(d.as_str()),
            None => Some(DEFAULT_DNS),
        },
    }
}

/// A machine without a network has no DNS server; any other has the one that its policy
/// names, or the default.
pub proof fn only_networks_have_dns_servers(policy: NetworkPolicy)
    ensures
        dns_server(policy) is None <==> policy is Disabled,
        policy matches NetworkPolicy::Egress { dns, .. } ==> match dns {
            Some(d) => dns_server(policy) == Some(d@),
            None => dns_server(policy) == Some("1.1.1.1"@),
        },
{
}

} // verus!
