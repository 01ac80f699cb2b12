//! Network interfaces as the operating system lists them, and the choice of
//! the local address to receive on.

use vstd::prelude::*;
use crate::address::Ipv4Address;
use crate::dotted::{address_of, lemma_address_of_dotted};
use crate::error::StartupError;

verus! {

/// A network interface: its name and the addresses assigned to it, each in
/// text, in the order in which the system reports them. An address of the
/// other family is in the list like any other.
#[derive(Clone, Debug)]
pub struct Interface {
    /// The name, such as `eth0`.
    pub name: String,
    /// The addresses, each as the system writes it.
    pub ips: Vec<String>,
}

impl Interface {
    /// Whether the interface carries the name asked for and has an address.
    pub open spec fn usable_as(self, name: Seq<char>) -> bool {
        self.name@ == name && self.ips@.len() > 0
    }
}

/// Whether `i` is the place of the first interface in the list that is
/// usable under `name`.
pub open spec fn first_usable(interfaces: Seq<Interface>, name: Seq<char>, i: int) -> bool {
    &&& 0 <= i < interfaces.len()
    &&& interfaces[i].usable_as(name)
    &&& forall|j: int| 0 <= j < i ==> !(#[trigger] interfaces[j]).usable_as(name)
}

/// Whether no interface in the list is usable under `name`.
pub open spec fn none_usable(interfaces: Seq<Interface>, name: Seq<char>) -> bool {
    forall|j: int| 0 <= j < interfaces.len() ==> !(#[trigger] interfaces[j]).usable_as(name)
}

/// What the text of an address yields as the local address: the IPv4
/// address that it stands for, where it stands for one.
pub open spec fn as_local_address(text: Seq<char>) -> Result<Ipv4Address, StartupError> {
    match address_of(text) {
        Some(address) => Ok(address),
        None => Err(StartupError::LocalAddressNotIpv4),
    }
}

/// The local address for the interface called `name`: the first address of
/// the first interface in the list that has that name and any address at
/// all.
pub open spec fn resolution(interfaces: Seq<Interface>, name: Seq<char>) -> Result<
    Ipv4Address,
    StartupError,
> {
    if exists|i: int| first_usable(interfaces, name, i) {
        let i = choose|i: int| first_usable(interfaces, name, i);
        as_local_address(interfaces[i].ips@[0]@)
    } else {
        Err(StartupError::InterfaceNotFound)
    }
}

/// At most one place in a list is the first usable one.
pub proof fn lemma_first_usable_unique(
    interfaces: Seq<Interface>,
    name: Seq<char>,
    i: int,
    k: int,
)
    requires
        first_usable(interfaces, name, i),
        first_usable(interfaces, name, k),
    ensures
        i == k,
{
}

/// Resolution takes the first address of the first usable interface, and no
/// later address of it and no later interface.
pub proof fn lemma_resolution_takes_first(interfaces: Seq<Interface>, name: Seq<char>, i: int)
    requires
        first_usable(interfaces, name, i),
    ensures
        resolution(interfaces, name) == as_local_address(interfaces[i].ips@[0]@),
        forall|first: Ipv4Address|
            interfaces[i].ips@[0]@ == #[trigger] first.dotted() ==> resolution(interfaces, name)
                == Ok::<Ipv4Address, StartupError>(first),
{
    let k = choose|k: int| first_usable(interfaces, name, k);
    lemma_first_usable_unique(interfaces, name, i, k);
    assert forall|first: Ipv4Address|
        interfaces[i].ips@[0]@ == #[trigger] first.dotted() implies resolution(interfaces, name)
        == Ok::<Ipv4Address, StartupError>(first) by {
        lemma_address_of_dotted(first);
    }
}

/// Where no interface has the name, or each that has it is without an
/// address, resolution fails, and the failure ends the process with
/// status 1.
pub proof fn lemma_resolution_fails_without_usable(interfaces: Seq<Interface>, name: Seq<char>)
    requires
        none_usable(interfaces, name),
    ensures
        resolution(interfaces, name) == Err::<Ipv4Address, StartupError>(
            StartupError::InterfaceNotFound,
        ),
        resolution(interfaces, name)->Err_0.status() == 1,
{
    assert forall|i: int| !first_usable(interfaces, name, i) by {
        if 0 <= i < interfaces.len() {
            assert(!interfaces[i].usable_as(name));
        }
    }
}

/// Resolution succeeds exactly where a first usable interface exists and
/// its first address is the text of an IPv4 address; it fails for want of
/// an interface exactly where none is usable.
pub proof fn lemma_resolution_succeeds_iff(interfaces: Seq<Interface>, name: Seq<char>)
    ensures
        resolution(interfaces, name) is Ok <==> exists|i: int|
            first_usable(interfaces, name, i) && address_of(interfaces[i].ips@[0]@) is Some,
        resolution(interfaces, name) == Err::<Ipv4Address, StartupError>(
            StartupError::InterfaceNotFound,
        ) <==> none_usable(interfaces, name),
        resolution(interfaces, name) == Err::<Ipv4Address, StartupError>(
            StartupError::LocalAddressNotIpv4,
        ) <==> exists|i: int|
            first_usable(interfaces, name, i) && address_of(interfaces[i].ips@[0]@) is None,
{
    if exists|i: int| first_usable(interfaces, name, i) {
        let k = choose|k: int| first_usable(interfaces, name, k);
        assert forall|i: int|
            first_usable(interfaces, name, i) && address_of(interfaces[i].ips@[0]@)
                is Some implies resolution(interfaces, name) is Ok by {
            lemma_first_usable_unique(interfaces, name, i, k);
        }
    } else {
        if !none_usable(interfaces, name) {
            lemma_some_usable_has_first(interfaces, name, interfaces.len() as int);
        }
    }
}

/// Where some interface among the first `n` is usable, one of them is the
/// first usable one.
proof fn lemma_some_usable_has_first(interfaces: Seq<Interface>, name: Seq<char>, n: int)
    requires
        0 <= n <= interfaces.len(),
        exists|j: int| 0 <= j < n && (#[trigger] interfaces[j]).usable_as(name),
    ensures
        exists|i: int| first_usable(interfaces, name, i),
    decreases n,
{
    let j = choose|j: int| 0 <= j < n && (#[trigger] interfaces[j]).usable_as(name);
    if exists|k: int| 0 <= k < j && (#[trigger] interfaces[k]).usable_as(name) {
        lemma_some_usable_has_first(interfaces, name, j);
    } else {
        assert(first_usable(interfaces, name, j));
    }
}

/// Picks the local address to receive on: the first address of the first
/// interface in `interfaces` that is called `name` and has an address.
///
/// Fails with `InterfaceNotFound` where there is no such interface, and with
/// `LocalAddressNotIpv4` where that first address is not the dotted-decimal
/// text of an IPv4 address.
pub fn get_interface_ip_address(interfaces: &Vec<Interface>, name: &str) -> (local: Result<
    Ipv4Address,
    StartupError,
>)
    ensures
        local == resolution(interfaces@, name@),
{
    let wanted: String = name.to_owned();
    let mut i: usize = 0;
    while i < interfaces.len()
        invariant
            i <= interfaces.len(),
            wanted@ == name@,
            forall|j: int| 0 <= j < i ==> !(#[trigger] interfaces@[j]).usable_as(name@),
        decreases interfaces.len() - i,
    {
        let interface = &interfaces[i];
        if interface.name == wanted && interface.ips.len() > 0 {
            proof {
                lemma_resolution_takes_first(interfaces@, name@, i as int);
            }
            return match Ipv4Address::parse(interface.ips[0].as_str()) {
                Some(address) => Ok(address),
                None => Err(StartupError::LocalAddressNotIpv4),
            };
        }
        i += 1;
    }
    proof {
        lemma_resolution_fails_without_usable(interfaces@, name@);
    }
    Err(StartupError::InterfaceNotFound)
}

} // verus!
