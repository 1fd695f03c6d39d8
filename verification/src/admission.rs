//! Admission by network origin: which peers may open a session.

use vstd::prelude::*;
use crate::config::same_text;

verus! {

/// The address of a peer, as its bytes in network order.
#[derive(Debug, Clone, Copy, PartialEq, Eq)]
pub enum IpAddress {
    V4([u8; 4]),
    V6([u8; 16]),
}

/// Whether the network that `cidr` denotes holds the address `ip`; nothing
/// where `cidr` denotes no network.
pub uninterp spec fn cidr_holds(cidr: Seq<char>, ip: IpAddress) -> Option<bool>;

/// The allow-list that admits everybody.
pub open spec fn any_cidr() -> Seq<char> {
    "*"@
}

/// The allow-list in force: the configured one, or the one that admits
/// everybody where none is configured.
pub open spec fn allow_list(configured: Option<Seq<char>>) -> Seq<char> {
    match configured {
        Some(cidr) => cidr,
        None => any_cidr(),
    }
}

/// Whether `allowed` admits `ip`: the allow-list that admits everybody
/// does, a network admits the addresses it holds, and any other text admits
/// nothing and is reported as no allow-list at all.
pub open spec fn admits(allowed: Seq<char>, ip: IpAddress) -> Option<bool> {
    if allowed == any_cidr() {
        Some(true)
    } else {
        cidr_holds(allowed, ip)
    }
}

/// Calls `IpNetwork::from_str` on `cidr` and `IpNetwork::contains` on the
/// network that comes out, with `ip` as an address of std. Both depend on
/// their arguments alone. The contract gives the answer the name
/// `cidr_holds`, with nothing for a text that does not parse, and claims no
/// more of it.
#[verifier::external_body]
fn network_contains(cidr: &str, ip: IpAddress) -> (held: Option<bool>)
    ensures
        held == cidr_holds(cidr@, ip),
{
    let network: ipnetwork::IpNetwork = cidr.parse().ok()?;
    Some(
        match ip {
            IpAddress::V4(octets) => network.contains(octets.into()),
            IpAddress::V6(octets) => network.contains(octets.into()),
        },
    )
}

/// The allow-list in force, given what the environment holds.
pub fn allowed_cidr(configured: Option<String>) -> (allowed: String)
    ensures
        allowed@ == allow_list(
            match configured {
                Some(cidr) => Some(cidr@),
                None => None,
            },
        ),
{
    match configured {
        Some(cidr) => cidr,
        None => "*".to_owned(),
    }
}

/// Picks the address that a peer is judged by: the one that a proxy
/// forwarded, and the peer's own only where no proxy forwarded one.
pub fn remote_addr<'a>(forwarded_for: Option<&'a str>, peer_addr: Option<&'a str>) -> (addr: Option<
    &'a str,
>)
    ensures
        addr == match forwarded_for {
            Some(forwarded) => Some(forwarded),
            None => peer_addr,
        },
{
    match forwarded_for {
        Some(forwarded) => Some(forwarded),
        None => peer_addr,
    }
}

/// Tells whether the allow-list `allowed` admits a peer at `ip`; nothing
/// where `allowed` is neither the list that admits everybody nor a network.
pub fn is_ip_in_cidr(allowed: &str, ip: IpAddress) -> (admitted: Option<bool>)
    ensures
        admitted == admits(allowed@, ip),
{
    if same_text(allowed, "*") {
        Some(true)
    } else {
        network_contains(allowed, ip)
    }
}

} // verus!
