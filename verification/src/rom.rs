//! Addresses of devices on the single-wire bus.
//!
//! A device's address is the 64-bit number in its ROM: the lowest byte names
//! the family of the device, then come six bytes of serial number, and the
//! highest byte is a checksum over the other seven.

use vstd::prelude::*;

verus! {

/// Whether the checksum in the highest byte of `address` matches the seven
/// bytes below it, as `one_wire_bus::crc::check_crc8` finds when it is given
/// the eight bytes of the address, lowest first.
pub uninterp spec fn rom_checksum_holds(address: u64) -> bool;

/// Calls `one_wire_bus::crc::check_crc8` on the eight bytes of `address`,
/// lowest first. The contract claims only that the answer depends on nothing
/// but the address; what the checksum is, is left to that crate.
#[verifier::external_body]
pub(crate) fn check_crc8(address: u64) -> (ok: bool)
    ensures
        ok == rom_checksum_holds(address),
{
    one_wire_bus::crc::check_crc8::<()>(&address.to_le_bytes()).is_ok()
}

/// Calls `one_wire_bus::Address::family_code`, which returns the lowest byte
/// of the address.
#[verifier::external_body]
pub(crate) fn family_code(address: u64) -> (code: u8)
    ensures
        code == address % 256,
{
    one_wire_bus::Address(address).family_code()
}

/// Reads `ds18b20::FAMILY_CODE`, the family code of the temperature sensor,
/// which is 0x28.
#[verifier::external_body]
pub(crate) fn sensor_family_code() -> (code: u8)
    ensures
        code == 0x28,
{
    ds18b20::FAMILY_CODE
}

/// The family code that temperature sensors carry.
pub open spec fn sensor_family() -> int {
    0x28
}

/// An address is a sensor's when its family code is that of the temperature
/// sensor and its checksum holds.
pub open spec fn is_sensor_address(address: u64) -> bool {
    address % 256 == sensor_family() && rom_checksum_holds(address)
}

/// Whether `address` is a temperature sensor's.
pub fn accepts(address: u64) -> (ok: bool)
    ensures
        ok == is_sensor_address(address),
{
    family_code(address) == sensor_family_code() && check_crc8(address)
}

} // verus!
