//! The checks made on the destination before anything else is done.

use vstd::prelude::*;
use crate::address::Ipv4Address;
use crate::error::StartupError;

verus! {

/// The lowest port that is accepted; the ports below it are reserved.
pub const MIN_PORT: u16 = 1025;

/// The verdict on the destination address: it has to be a multicast group.
pub open spec fn address_check(address: Ipv4Address) -> Result<(), StartupError> {
    if address.in_multicast_range() {
        Ok(())
    } else {
        Err(StartupError::NotMulticast)
    }
}

/// The verdict on the destination port: it has to be at least `MIN_PORT`.
pub open spec fn port_check(port: u16) -> Result<(), StartupError> {
    if port >= MIN_PORT {
        Ok(())
    } else {
        Err(StartupError::PortOutOfRange)
    }
}

/// The verdict on the destination: the address is judged first, the port
/// only where the address has passed.
pub open spec fn validation(address: Ipv4Address, port: u16) -> Result<(), StartupError> {
    match address_check(address) {
        Err(error) => Err(error),
        Ok(()) => port_check(port),
    }
}

/// Checks that `address` is the address of a multicast group.
pub fn validate_address(address: Ipv4Address) -> (verdict: Result<(), StartupError>)
    ensures
        verdict == address_check(address),
{
    if address.is_multicast() {
        Ok(())
    } else {
        Err(StartupError::NotMulticast)
    }
}

/// Checks that `port` is not a reserved port.
pub fn validate_port(port: u16) -> (verdict: Result<(), StartupError>)
    ensures
        verdict == port_check(port),
{
    if port < MIN_PORT {
        Err(StartupError::PortOutOfRange)
    } else {
        Ok(())
    }
}

/// Checks the destination, address first.
pub fn validate(address: Ipv4Address, port: u16) -> (verdict: Result<(), StartupError>)
    ensures
        verdict == validation(address, port),
{
    match validate_address(address) {
        Err(error) => Err(error),
        Ok(()) => validate_port(port),
    }
}

/// Every multicast address passes the address check; every other address
/// is rejected, whatever the port, and the rejection ends the process with
/// status 1.
pub proof fn lemma_address_policy(address: Ipv4Address, port: u16)
    ensures
        address.in_multicast_range() ==> address_check(address) is Ok,
        !address.in_multicast_range() ==> validation(address, port) == Err::<(), StartupError>(
            StartupError::NotMulticast,
        ) && validation(address, port)->Err_0.status() == 1,
{
}

/// Every port below 1025 is rejected, whatever the address, and the
/// rejection ends the process with status 1; every port from 1025 on passes
/// the port check, and the destination passes where its address does.
pub proof fn lemma_port_policy(address: Ipv4Address, port: u16)
    ensures
        port < 1025 ==> port_check(port) == Err::<(), StartupError>(StartupError::PortOutOfRange)
            && validation(address, port) is Err && validation(address, port)->Err_0.status() == 1,
        port >= 1025 ==> port_check(port) is Ok && validation(address, port) == address_check(
            address,
        ),
{
}

} // verus!
