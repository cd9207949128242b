//! Network interfaces and the choice of the host address to bind to.

use vstd::prelude::*;
use crate::decimal::{decimal, push_decimal};
use crate::text::str_eq;

verus! {

/// Name of the interface whose IPv4 address the server binds to.
pub const WIFI_INTERFACE: &'static str = "Wi-Fi";

/// Port the server listens on.
pub const DEFAULT_PORT: &'static str = "8000";

/// An IP address bound to a network interface.
#[derive(Clone, Copy, Debug, PartialEq, Eq)]
pub enum IpAddress {
    /// Four octets, most significant first.
    V4([u8; 4]),
    /// Eight 16-bit segments, most significant first.
    V6([u16; 8]),
}

/// One entry of the host's list of interfaces: its name and a bound address.
#[derive(Debug)]
pub struct InterfaceRecord {
    pub name: String,
    pub address: IpAddress,
}

/// Host and port that the server is bound to.
#[derive(Debug)]
pub struct BindTarget {
    pub host: String,
    pub port: String,
}

/// The dotted-quad text of four octets, such as `192.168.1.7`.
pub open spec fn dotted_quad(o: [u8; 4]) -> Seq<char> {
    decimal(o[0] as nat) + seq!['.'] + decimal(o[1] as nat) + seq!['.'] + decimal(o[2] as nat)
        + seq!['.'] + decimal(o[3] as nat)
}

impl IpAddress {
    /// Whether this is an IPv4 address.
    pub fn is_ipv4(&self) -> (r: bool)
        ensures
            r == (*self is V4),
    {
        match self {
            IpAddress::V4(_) => true,
            IpAddress::V6(_) => false,
        }
    }
}

/// The dotted-quad text of an IPv4 address.
pub fn ipv4_text(o: [u8; 4]) -> (r: String)
    ensures
        r@ == dotted_quad(o),
{
    proof {
        reveal_strlit(".");
    }
    let mut r = String::new();
    push_decimal(&mut r, o[0] as u64);
    r.append(".");
    push_decimal(&mut r, o[1] as u64);
    r.append(".");
    push_decimal(&mut r, o[2] as u64);
    r.append(".");
    push_decimal(&mut r, o[3] as u64);
    assert(r@ =~= dotted_quad(o));
    r
}

/// Whether `rec` is an IPv4 address of the interface called `name`.
pub open spec fn is_candidate(rec: InterfaceRecord, name: Seq<char>) -> bool {
    rec.name@ == name && rec.address is V4
}

/// The dotted-quad text of the first IPv4 address, in list order, of an
/// interface called `name`; `None` when there is none.
pub open spec fn selected_host(ifs: Seq<InterfaceRecord>, name: Seq<char>) -> Option<Seq<char>>
    decreases ifs.len(),
{
    if ifs.len() == 0 {
        None
    } else if is_candidate(ifs[0], name) {
        Some(dotted_quad(ifs[0].address->V4_0))
    } else {
        selected_host(ifs.skip(1), name)
    }
}

/// The dotted-quad text of the first IPv4 address of the interface called
/// `name`, if the list holds one.
pub fn find_interface_host(interfaces: &Vec<InterfaceRecord>, name: &str) -> (r: Option<String>)
    ensures
        r matches Some(h) ==> selected_host(interfaces@, name@) == Some(h@),
        r is None ==> selected_host(interfaces@, name@) is None,
{
    let mut i: usize = 0;
    assert(interfaces@.skip(0) =~= interfaces@);
    while i < interfaces.len()
        invariant
            i <= interfaces.len(),
            selected_host(interfaces@.skip(i as int), name@) == selected_host(interfaces@, name@),
        decreases interfaces.len() - i,
    {
        let ghost rest = interfaces@.skip(i as int);
        assert(rest[0] == interfaces@[i as int]);
        let rec = &interfaces[i];
        if str_eq(rec.name.as_str(), name) {
            if let IpAddress::V4(o) = rec.address {
                return Some(ipv4_text(o));
            }
        }
        assert(rest.skip(1) =~= interfaces@.skip(i + 1));
        i = i + 1;
    }
    None
}

/// Where the server binds: the first IPv4 address of the `Wi-Fi` interface,
/// on the default port; `None` when that interface has no IPv4 address.
pub fn select_bind_host(interfaces: &Vec<InterfaceRecord>) -> (r: Option<BindTarget>)
    ensures
        r matches Some(t) ==> selected_host(interfaces@, WIFI_INTERFACE@) == Some(t.host@)
            && t.port@ == DEFAULT_PORT@,
        r is None ==> selected_host(interfaces@, WIFI_INTERFACE@) is None,
{
    match find_interface_host(interfaces, WIFI_INTERFACE) {
        Some(host) => Some(BindTarget { host, port: String::from_str(DEFAULT_PORT) }),
        None => None,
    }
}

} // verus!
