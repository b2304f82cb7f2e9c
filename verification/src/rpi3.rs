//! Address constants and address-space conversions of the BCM2837.

use vstd::prelude::*;

verus! {

/// Offset between an ARM physical address and the bus address of the same
/// location as the firmware processor sees it, with the L2 cache disabled.
pub const BUS_OFFSET: u32 = 0xC000_0000;

/// Base address of the peripheral window. The first gigabyte is identity
/// mapped, so the physical and the virtual address are the same.
pub const PERIPHERAL_BASE: u32 = 0x3F00_0000;

/// The bus address of `address`, as a mathematical function.
pub open spec fn spec_phys2bus(address: u32) -> u32 {
    if address as int + BUS_OFFSET as int <= u32::MAX as int {
        (address + BUS_OFFSET) as u32
    } else {
        (address + BUS_OFFSET - 0x1_0000_0000) as u32
    }
}

/// The physical address of bus address `address`, as a mathematical function.
pub open spec fn spec_bus2phys(address: u32) -> u32 {
    if address >= BUS_OFFSET {
        (address - BUS_OFFSET) as u32
    } else {
        (address + 0x1_0000_0000 - BUS_OFFSET) as u32
    }
}

/// Virtual address of a physical address under the identity mapping.
pub fn phys2virt(address: u32) -> (virt: u32)
    ensures
        virt == address,
{
    address
}

/// Converts a physical address to the bus address of the same location.
/// The sum wraps around at 32 bits.
pub fn phys2bus(address: u32) -> (bus: u32)
    ensures
        bus == spec_phys2bus(address),
        bus as int == (address as int + 0xC000_0000) % 0x1_0000_0000,
{
    address.wrapping_add(BUS_OFFSET)
}

/// Converts a bus address to the physical address of the same location.
/// The difference wraps around at 32 bits.
pub fn bus2phys(address: u32) -> (phys: u32)
    ensures
        phys == spec_bus2phys(address),
        phys as int == (address as int - 0xC000_0000) % 0x1_0000_0000,
{
    address.wrapping_sub(BUS_OFFSET)
}

/// The two conversions undo each other, in either order.
pub proof fn lemma_bus_phys_inverse(address: u32)
    ensures
        spec_bus2phys(spec_phys2bus(address)) == address,
        spec_phys2bus(spec_bus2phys(address)) == address,
{
}

} // verus!
