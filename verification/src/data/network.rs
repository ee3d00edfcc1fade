//! Network-related data models.
use vstd::prelude::*;
use vstd::string::*;

use crate::scan::{
    decimal_parses_back, lemma_decimal_value, lemma_first_of, lemma_first_of_facts, parse_unsigned,
    parsed_nat, split_first, split_once,
};
use crate::text::{decimal, decimal_text};

verus! {

/// Default DNS server of machines with network egress.
pub const DEFAULT_DNS: &'static str = "1.1.1.1";

/// A port of the host that is forwarded to a port of the guest.
#[derive(Debug, Clone, Copy, PartialEq, Eq, Structural)]
pub struct PortMapping {
    /// Port on the host.
    pub host: u16,
    /// Port in the guest.
    pub guest: u16,
}

impl View for PortMapping {
    type V = PortMapping;

    open spec fn view(&self) -> PortMapping {
        *self
    }
}

impl DeepView for PortMapping {
    type V = PortMapping;

    open spec fn deep_view(&self) -> PortMapping {
        *self
    }
}

/// The port that a text denotes.
pub open spec fn port_number(s: Seq<char>) -> Option<u16> {
    match parsed_nat(s, u16::MAX as nat) {
        Some(n) => Some(n as u16),
        None => None,
    }
}

/// The mapping that a `HOST:GUEST` text denotes, or what is wrong with it.
pub open spec fn parsed_port(spec_text: Seq<char>) -> Result<PortMapping, Seq<char>> {
    match split_first(spec_text, ':') {
        None => Err("invalid port mapping '"@ + spec_text + "': expected HOST:GUEST"@),
        Some((h, g)) => match port_number(h) {
            None => Err("invalid host port '"@ + h + "'"@),
            Some(host) => match port_number(g) {
                None => Err("invalid guest port '"@ + g + "'"@),
                Some(guest) => Ok(PortMapping { host, guest }),
            },
        },
    }
}

/// The pairs of a list of mappings.
pub open spec fn port_pairs(ports: Seq<PortMapping>) -> Seq<(u16, u16)> {
    Seq::new(ports.len(), |i: int| (ports[i].host, ports[i].guest))
}

/// The mappings of a list of pairs.
pub open spec fn pair_ports(pairs: Seq<(u16, u16)>) -> Seq<PortMapping> {
    Seq::new(pairs.len(), |i: int| PortMapping { host: pairs[i].0, guest: pairs[i].1 })
}

/// Whether position `i` repeats the host port of an earlier position.
pub open spec fn repeats_host_port(ports: Seq<PortMapping>, i: int) -> bool {
    exists|j: int| 0 <= j < i && #[trigger] ports[j].host == ports[i].host
}

fn parse_port_number(s: &str) -> (r: Option<u16>)
    ensures
        r == port_number(s@),
{
    match parse_unsigned(s, u16::MAX as u64) {
        Some(n) => Some(n as u16),
        None => None,
    }
}

impl PortMapping {
    /// A mapping from a host port to a guest port.
    pub fn new(host: u16, guest: u16) -> (r: PortMapping)
        ensures
            r == (PortMapping { host, guest }),
    {
        PortMapping { host, guest }
    }

    /// Parse a `HOST:GUEST` mapping.
    pub fn parse(spec_text: &str) -> (r: Result<PortMapping, String>)
        ensures
            match parsed_port(spec_text@) {
                Ok(p) => r matches Ok(q) && q == p,
                Err(e) => r matches Err(f) && f@ == e,
            },
    {
        match split_once(spec_text, ':') {
            None => Err(
                String::from_str("invalid port mapping '").concat(spec_text).concat(
                    "': expected HOST:GUEST",
                ),
            ),
            Some((h, g)) => match parse_port_number(h.as_str()) {
                None => Err(
                    String::from_str("invalid host port '").concat(h.as_str()).concat("'"),
                ),
                Some(host) => match parse_port_number(g.as_str()) {
                    None => Err(
                        String::from_str("invalid guest port '").concat(g.as_str()).concat("'"),
                    ),
                    Some(guest) => Ok(PortMapping { host, guest }),
                },
            },
        }
    }

    /// The stored form: host port, guest port.
    pub fn to_tuple(&self) -> (r: (u16, u16))
        ensures
            r == (self.host, self.guest),
    {
        (self.host, self.guest)
    }

    /// Stored forms of a list of mappings, in order.
    pub fn to_tuples(ports: &Vec<PortMapping>) -> (r: Vec<(u16, u16)>)
        ensures
            r@ == port_pairs(ports@),
    {
        let mut r: Vec<(u16, u16)> = Vec::new();
        for i in 0..ports.len()
            invariant
                r@ =~= port_pairs(ports@).take(i as int),
        {
            r.push(ports[i].to_tuple());
        }
        assert(port_pairs(ports@).take(ports@.len() as int) =~= port_pairs(ports@));
        r
    }

    /// Mappings of a list of stored pairs, in order.
    pub fn from_tuples(pairs: &Vec<(u16, u16)>) -> (r: Vec<PortMapping>)
        ensures
            r@ == pair_ports(pairs@),
    {
        let mut r: Vec<PortMapping> = Vec::new();
        for i in 0..pairs.len()
            invariant
                r@ =~= pair_ports(pairs@).take(i as int),
        {
            let (host, guest) = pairs[i];
            r.push(PortMapping::new(host, guest));
        }
        assert(pair_ports(pairs@).take(pairs@.len() as int) =~= pair_ports(pairs@));
        r
    }

    /// Refuse a list in which one host port is mapped twice; the first repetition
    /// is reported.
    pub fn check_duplicates(ports: &Vec<PortMapping>) -> (r: Result<(), String>)
        ensures
            match first_repeat(ports@, 0) {
                None => r is Ok,
                Some(i) => r matches Err(e) && e@ == duplicate_text(ports@[i].host),
            },
    {
        let mut i: usize = 0;
        while i < ports.len()
            invariant
                i <= ports@.len(),
                first_repeat(ports@, 0) == first_repeat(ports@, i as int),
            decreases ports@.len() - i,
        {
            for k in 0..i
                invariant
                    i < ports@.len(),
                    first_repeat(ports@, 0) == first_repeat(ports@, i as int),
                    forall|j: int| 0 <= j < k ==> (#[trigger] ports@[j]).host != ports@[i as int].host,
            {
                if ports[k].host == ports[i].host {
                    assert(repeats_host_port(ports@, i as int));
                    return Err(
                        String::from_str("duplicate host port: ").concat(
                            decimal_text(ports[i].host as u64).as_str(),
                        ),
                    );
                }
            }
            i = i + 1;
        }
        Ok(())
    }
}

/// The message for a host port that is mapped twice.
pub open spec fn duplicate_text(host: u16) -> Seq<char> {
    "duplicate host port: "@ + decimal(host as nat)
}

/// The first position from `i` on that repeats an earlier host port.
pub open spec fn first_repeat(ports: Seq<PortMapping>, i: int) -> Option<int>
    decreases ports.len() - i,
{
    if i >= ports.len() {
        None
    } else if repeats_host_port(ports, i) {
        Some(i)
    } else {
        first_repeat(ports, i + 1)
    }
}

proof fn lemma_no_repeat(ports: Seq<PortMapping>, i: int)
    requires
        0 <= i <= ports.len(),
    ensures
        first_repeat(ports, i) is None <==> (forall|j: int|
            i <= j < ports.len() ==> !#[trigger] repeats_host_port(ports, j)),
        first_repeat(ports, i) matches Some(k) ==> i <= k < ports.len() && repeats_host_port(ports, k),
    decreases ports.len() - i,
{
    if i < ports.len() && !repeats_host_port(ports, i) {
        lemma_no_repeat(ports, i + 1);
    }
}

/// A list passes the check for duplicates exactly when its host ports are pairwise
/// distinct.
pub proof fn accepted_ports_are_distinct(ports: Seq<PortMapping>)
    ensures
        first_repeat(ports, 0) is None <==> (forall|i: int, j: int|
            0 <= i < j < ports.len() ==> (#[trigger] ports[i]).host != (#[trigger] ports[j]).host),
{
    lemma_no_repeat(ports, 0);
    if first_repeat(ports, 0) is None {
        assert forall|i: int, j: int| 0 <= i < j < ports.len() implies (#[trigger] ports[i]).host != (
        #[trigger] ports[j]).host by {
            assert(!repeats_host_port(ports, j));
        }
    }
}

/// The stored form of a port list gives the list back.
pub proof fn stored_ports_round_trip(ports: Seq<PortMapping>)
    ensures
        pair_ports(port_pairs(ports)) == ports,
{
    assert(pair_ports(port_pairs(ports)) =~= ports);
}

/// A mapping is written as the host port, a colon and the guest port, for every pair of
/// ports; a text without a colon is no mapping.
pub proof fn mappings_are_host_then_guest(host: u16, guest: u16, bare: Seq<char>)
    requires
        !bare.contains(':'),
    ensures
        parsed_port(decimal(host as nat) + seq![':'] + decimal(guest as nat)) == Ok::<
            PortMapping,
            Seq<char>,
        >(PortMapping { host, guest }),
        parsed_port(bare) is Err,
{
    let h = decimal(host as nat);
    let g = decimal(guest as nat);
    let text = h + seq![':'] + g;
    lemma_decimal_value(host as nat);
    assert forall|j: int| 0 <= j < h.len() implies text[j] != ':' by {
        assert(text[j] == h[j]);
    }
    lemma_first_of(text, ':', h.len() as int);
    assert(text.take(h.len() as int) == h);
    assert(text.skip((h.len() + 1) as int) == g);
    decimal_parses_back(host as nat, u16::MAX as nat);
    decimal_parses_back(guest as nat, u16::MAX as nat);
    lemma_first_of_facts(bare, ':');
}

/// A mapping is accepted exactly where it has a colon and a port on each side of the first
/// one.
pub proof fn mappings_need_two_ports(a: Seq<char>, b: Seq<char>)
    requires
        !a.contains(':'),
    ensures
        parsed_port(a + seq![':'] + b) is Ok <==> parsed_nat(a, u16::MAX as nat) is Some
            && parsed_nat(b, u16::MAX as nat) is Some,
{
    let text = a + seq![':'] + b;
    assert forall|j: int| 0 <= j < a.len() implies text[j] != ':' by {
        assert(a.contains(a[j]));
    }
    lemma_first_of(text, ':', a.len() as int);
    assert(text.take(a.len() as int) == a);
    assert(text.skip((a.len() + 1) as int) == b);
}

/// The stored form of a mapping is its host port and its guest port, in this order, and
/// mappings keep their places.
pub proof fn stored_ports_keep_their_sides(ports: Seq<PortMapping>, pairs: Seq<(u16, u16)>, i: int)
    ensures
        port_pairs(ports).len() == ports.len(),
        0 <= i < ports.len() ==> port_pairs(ports)[i] == (ports[i].host, ports[i].guest),
        pair_ports(pairs).len() == pairs.len(),
        0 <= i < pairs.len() ==> pair_ports(pairs)[i].host == pairs[i].0 && pair_ports(
            pairs,
        )[i].guest == pairs[i].1,
{
}

/// The repetition that is reported is one, and no earlier port repeats another.
pub proof fn the_first_repetition_is_reported(ports: Seq<PortMapping>, i: int, k: int)
    requires
        0 <= i <= ports.len(),
        first_repeat(ports, i) == Some(k),
    ensures
        i <= k < ports.len(),
        exists|j: int| 0 <= j < k && #[trigger] ports[j].host == ports[k].host,
        forall|m: int| i <= m < k ==> !#[trigger] repeats_host_port(ports, m),
    decreases ports.len() - i,
{
    if i < ports.len() && !repeats_host_port(ports, i) {
        the_first_repetition_is_reported(ports, i + 1, k);
    }
}

} // verus!
