//! The default machine id: the low 16 bits of the host's first private IPv4
//! address. The caller lists the host's network interfaces; which address
//! counts is decided here.
use crate::error::Error;
use vstd::prelude::*;

verus! {

/// An address of a network interface.
#[derive(Debug, Clone, Copy)]
pub enum IpAddress {
    /// An IPv4 address, by its four octets.
    V4([u8; 4]),
    /// An IPv6 address, by its sixteen octets.
    V6([u8; 16]),
}

/// A network interface of the host, as far as the choice of a machine id
/// looks at it.
#[derive(Debug)]
pub struct Interface {
    /// Whether the interface is up.
    pub up: bool,
    /// Whether it is a loopback interface.
    pub loopback: bool,
    /// Its addresses, in the order in which the host lists them.
    pub addrs: Vec<IpAddress>,
}

/// Whether an IPv4 address lies in one of the private ranges 10.0.0.0/8,
/// 172.16.0.0/12 and 192.168.0.0/16.
pub open spec fn private_range(ip: [u8; 4]) -> bool {
    ip[0] == 10 || (ip[0] == 172 && 16 <= ip[1] < 32) || (ip[0] == 192 && ip[1] == 168)
}

/// Whether an address is a private IPv4 address.
pub open spec fn private_address(addr: IpAddress) -> bool {
    addr matches IpAddress::V4(ip) && private_range(ip)
}

/// Whether address `j` of interface `i` can give the machine id: the
/// interface is up and no loopback, and the address is a private IPv4 address.
pub open spec fn eligible(interfaces: Seq<Interface>, i: int, j: int) -> bool {
    &&& 0 <= i < interfaces.len()
    &&& interfaces[i].up
    &&& !interfaces[i].loopback
    &&& 0 <= j < interfaces[i].addrs@.len()
    &&& private_address(interfaces[i].addrs@[j])
}

/// Whether address `j` of interface `i` is eligible and no address listed
/// before it is.
pub open spec fn first_eligible(interfaces: Seq<Interface>, i: int, j: int) -> bool {
    &&& eligible(interfaces, i, j)
    &&& forall|a: int, b: int| (a < i || (a == i && b < j)) ==> !eligible(interfaces, a, b)
}

/// The host's first private IPv4 address: the address at the one place that
/// is `first_eligible`, where there is such a place.
pub open spec fn first_private(interfaces: Seq<Interface>) -> Option<[u8; 4]> {
    if exists|i: int, j: int| first_eligible(interfaces, i, j) {
        let (i, j) = choose|i: int, j: int| first_eligible(interfaces, i, j);
        match interfaces[i].addrs@[j] {
            IpAddress::V4(ip) => Some(ip),
            IpAddress::V6(_) => None,
        }
    } else {
        None
    }
}

/// The machine id that an address gives: its last two octets, the third one
/// first.
pub open spec fn lower_16_bits(ip: [u8; 4]) -> int {
    ip[2] * 0x100 + ip[3]
}

/// The default machine id of a host with these interfaces.
pub open spec fn host_machine_id(interfaces: Seq<Interface>) -> Result<u16, Error> {
    match first_private(interfaces) {
        Some(ip) => Ok(lower_16_bits(ip) as u16),
        None => Err(Error::NoPrivateIPv4),
    }
}

/// At most one place is `first_eligible`, so the place decides the address.
pub proof fn lemma_first_eligible_decides(interfaces: Seq<Interface>, i: int, j: int)
    requires
        first_eligible(interfaces, i, j),
    ensures
        first_private(interfaces) == match interfaces[i].addrs@[j] {
            IpAddress::V4(ip) => Some(ip),
            IpAddress::V6(_) => None::<[u8; 4]>,
        },
{
}

/// Among eligible addresses there is a first one.
pub proof fn lemma_eligible_has_first(interfaces: Seq<Interface>, i: int, j: int)
    requires
        eligible(interfaces, i, j),
    ensures
        exists|a: int, b: int| first_eligible(interfaces, a, b),
    decreases i, j,
{
    if exists|a: int, b: int|
        (a < i || (a == i && b < j)) && #[trigger] eligible(interfaces, a, b) {
        let (a, b) = choose|a: int, b: int|
            (a < i || (a == i && b < j)) && #[trigger] eligible(interfaces, a, b);
        lemma_eligible_has_first(interfaces, a, b);
    } else {
        assert(first_eligible(interfaces, i, j));
    }
}

/// There is no first private address exactly when no address of an interface
/// that is up and no loopback is a private IPv4 address; and so the default
/// machine id fails, with `NoPrivateIPv4`, exactly then.
pub proof fn lemma_no_private_address(interfaces: Seq<Interface>)
    ensures
        first_private(interfaces) is None <==> forall|i: int, j: int|
            !eligible(interfaces, i, j),
        host_machine_id(interfaces) is Err <==> forall|i: int, j: int| !eligible(interfaces, i, j),
        host_machine_id(interfaces) matches Err(e) ==> e == Error::NoPrivateIPv4,
{
    if exists|i: int, j: int| eligible(interfaces, i, j) {
        let (i, j) = choose|i: int, j: int| eligible(interfaces, i, j);
        lemma_eligible_has_first(interfaces, i, j);
    }
}

/// Whether an IPv4 address lies in one of the private ranges.
pub fn is_private_ipv4(ip: [u8; 4]) -> (private: bool)
    ensures
        private == private_range(ip),
{
    ip[0] == 10 || (ip[0] == 172 && (ip[1] >= 16 && ip[1] < 32)) || (ip[0] == 192 && ip[1] == 168)
}

/// The first private IPv4 address among the addresses of one interface.
fn private_ipv4_of(addrs: &Vec<IpAddress>) -> (found: Option<(usize, [u8; 4])>)
    ensures
        match found {
            Some((j, ip)) => {
                &&& j < addrs@.len()
                &&& addrs@[j as int] == IpAddress::V4(ip)
                &&& private_range(ip)
                &&& forall|b: int| 0 <= b < j ==> !private_address(#[trigger] addrs@[b])
            },
            None => forall|b: int| 0 <= b < addrs@.len() ==> !private_address(#[trigger] addrs@[b]),
        },
{
    let mut j: usize = 0;
    while j < addrs.len()
        invariant
            j <= addrs@.len(),
            forall|b: int| 0 <= b < j ==> !private_address(#[trigger] addrs@[b]),
        decreases addrs@.len() - j,
    {
        match addrs[j] {
            IpAddress::V4(ip) => {
                if is_private_ipv4(ip) {
                    return Some((j, ip));
                }
            },
            IpAddress::V6(_) => {},
        }
        j += 1;
    }
    None
}

/// The first private IPv4 address of the host: interfaces that are down and
/// loopback interfaces are passed over, and so is every address that is not a
/// private IPv4 address.
pub fn private_ipv4(interfaces: &Vec<Interface>) -> (found: Option<[u8; 4]>)
    ensures
        found == first_private(interfaces@),
{
    let mut i: usize = 0;
    while i < interfaces.len()
        invariant
            i <= interfaces@.len(),
            forall|a: int, b: int| a < i ==> !eligible(interfaces@, a, b),
        decreases interfaces@.len() - i,
    {
        let interface = &interfaces[i];
        if interface.up && !interface.loopback {
            match private_ipv4_of(&interface.addrs) {
                Some((j, ip)) => {
                    proof {
                        lemma_first_eligible_decides(interfaces@, i as int, j as int);
                    }
                    return Some(ip);
                },
                None => {},
            }
        }
        i += 1;
    }
    None
}

/// The default machine id: the low 16 bits of the host's first private IPv4
/// address.
///
/// Fails with `NoPrivateIPv4` exactly when no interface that is up and no
/// loopback has a private IPv4 address.
pub fn lower_16_bit_private_ip(interfaces: &Vec<Interface>) -> (id: Result<u16, Error>)
    ensures
        id == host_machine_id(interfaces@),
{
    match private_ipv4(interfaces) {
        Some(ip) => {
            let high: u16 = ip[2] as u16;
            let low: u16 = ip[3] as u16;
            Ok(high * 0x100 + low)
        },
        None => Err(Error::NoPrivateIPv4),
    }
}

} // verus!
