//! The Cortex-A53 as the bootstrap sees it: the attribute flags of memory,
//! the memory map of the board, and the steps that set the address space of
//! an exception level.
//!
//! The address space is described by three registers (table base, control,
//! memory attributes). They are written between a data synchronisation
//! barrier and an instruction synchronisation barrier, so that every
//! instruction fetched afterwards sees the new state. No register is touched
//! here: the functions say which steps are to be taken, in which order.

use vstd::prelude::*;

verus! {

/// A physical address.
pub type PhysicalAddress = u64;

/// A virtual address.
pub type VirtualAddress = u64;

/// Top of the boot stack, just below the kernel image.
pub const STACK_START: u64 = 0x8_0000;

/// The bits of the core identification register that number the core.
pub const CORE_MASK: u64 = 0x3;

/// Device memory: no gathering, no reordering, no early write
/// acknowledgement.
pub const DEVICE_NGNRNE: u64 = 0 << 2;

/// Device memory: no gathering, no reordering.
pub const DEVICE_NGNRE: u64 = 1 << 2;

/// Device memory: gathering, reordering and early acknowledgement allowed.
pub const DEVICE_GRE: u64 = 2 << 2;

/// Normal memory, not cached.
pub const NORMAL_NC: u64 = 3 << 2;

/// Normal memory, cached.
pub const NORMAL: u64 = 4 << 2;

/// Non-secure.
pub const NS: u64 = 1 << 5;

/// Not shareable.
pub const NON_SHARE: u64 = 0 << 8;

/// Outer shareable.
pub const OUTER_SHARE: u64 = 2 << 8;

/// Inner shareable.
pub const INNER_SHARE: u64 = 3 << 8;

/// Access flag.
pub const AF: u64 = 1 << 10;

/// Not global.
pub const NG: u64 = 1 << 11;

/// Privileged execute-never.
pub const PXN: u64 = 1 << 53;

/// Unprivileged execute-never.
pub const UXN: u64 = 1 << 54;

/// Every bit that belongs to some flag.
pub const ALL_FLAGS: u64 = 0x0060_0000_0000_0f3c;

/// Attribute flags of a region of the memory map.
#[derive(Clone, Copy, Debug, PartialEq, Eq, Structural)]
pub struct MemType {
    /// The flags as a bit pattern.
    pub bits: u64,
}

impl MemType {
    /// Whether every bit of `other` is among the flags.
    pub open spec fn spec_contains(self, other: u64) -> bool {
        self.bits & other == other
    }

    /// No flag.
    pub fn empty() -> (flags: MemType)
        ensures
            flags.bits == 0,
    {
        MemType { bits: 0 }
    }

    /// The flags with the bit pattern `bits`, if every bit of it belongs to
    /// some flag.
    pub fn from_bits(bits: u64) -> (flags: Option<MemType>)
        ensures
            flags is Some <==> bits & !ALL_FLAGS == 0,
            flags matches Some(f) ==> f.bits == bits,
    {
        if bits & !ALL_FLAGS == 0 {
            Some(MemType { bits })
        } else {
            None
        }
    }

    /// The flags among the bits of `bits`; bits of no flag are dropped.
    pub fn from_bits_truncate(bits: u64) -> (flags: MemType)
        ensures
            flags.bits == bits & ALL_FLAGS,
    {
        MemType { bits: bits & ALL_FLAGS }
    }

    /// The flags as a bit pattern.
    pub fn bits(&self) -> (bits: u64)
        ensures
            bits == self.bits,
    {
        self.bits
    }

    /// The flags of both.
    pub fn union(self, other: MemType) -> (flags: MemType)
        ensures
            flags.bits == self.bits | other.bits,
    {
        MemType { bits: self.bits | other.bits }
    }

    /// Whether every flag of `other` is among the flags.
    pub fn contains(&self, other: MemType) -> (all: bool)
        ensures
            all == self.spec_contains(other.bits),
    {
        self.bits & other.bits == other.bits
    }

    /// Whether some flag of `other` is among the flags.
    pub fn intersects(&self, other: MemType) -> (some: bool)
        ensures
            some == (self.bits & other.bits != 0),
    {
        self.bits & other.bits != 0
    }

    /// Whether there is no flag.
    pub fn is_empty(&self) -> (none: bool)
        ensures
            none == (self.bits == 0),
    {
        self.bits == 0
    }
}

/// One contiguous range of the memory map.
#[derive(Clone, Copy, Debug, PartialEq, Eq, Structural)]
pub struct MemMapRegion {
    /// First virtual address of the range.
    pub virt: VirtualAddress,
    /// First physical address of the range.
    pub phys: PhysicalAddress,
    /// Size of the range in bytes.
    pub size: u64,
    /// Attribute flags of the range.
    pub attr: MemType,
}

impl MemMapRegion {
    /// Whether the range holds the virtual address `address`.
    pub open spec fn spec_holds(self, address: int) -> bool {
        self.virt <= address < self.virt + self.size
    }

    /// Whether the range holds the virtual address `address`.
    pub fn holds(&self, address: VirtualAddress) -> (inside: bool)
        ensures
            inside == self.spec_holds(address as int),
    {
        self.virt <= address && address - self.virt < self.size
    }
}

/// End of the address range that the memory map covers: one gigabyte.
pub const MAPPED_END: u64 = 0x4000_0000;

/// The memory map of the BCM2837 as a mathematical value: general memory,
/// cached and inner shareable, below the peripherals; and the window of the
/// peripherals, device memory that is not shared and never executed from.
pub open spec fn spec_bcm2837_mem_map() -> Seq<MemMapRegion> {
    seq![
        MemMapRegion {
            virt: 0x0000_0000,
            phys: 0x0000_0000,
            size: 0x3f00_0000,
            attr: MemType { bits: NORMAL | INNER_SHARE },
        },
        MemMapRegion {
            virt: 0x3f00_0000,
            phys: 0x3f00_0000,
            size: 0x0100_0000,
            attr: MemType { bits: DEVICE_NGNRNE | NON_SHARE | PXN | UXN },
        },
    ]
}

/// The memory map of the BCM2837.
pub fn bcm2837_mem_map() -> (map: [MemMapRegion; 2])
    ensures
        map@ == spec_bcm2837_mem_map(),
{
    assert((NORMAL | INNER_SHARE) & ALL_FLAGS == NORMAL | INNER_SHARE) by (bit_vector);
    assert((DEVICE_NGNRNE | NON_SHARE | PXN | UXN) & ALL_FLAGS == DEVICE_NGNRNE | NON_SHARE | PXN
        | UXN) by (bit_vector);
    let map = [
        MemMapRegion {
            virt: 0x0000_0000,
            phys: 0x0000_0000,
            size: 0x3f00_0000,
            attr: MemType::from_bits_truncate(NORMAL | INNER_SHARE),
        },
        MemMapRegion {
            virt: 0x3f00_0000,
            phys: 0x3f00_0000,
            size: 0x0100_0000,
            attr: MemType::from_bits_truncate(DEVICE_NGNRNE | NON_SHARE | PXN | UXN),
        },
    ];
    assert(map@ =~= spec_bcm2837_mem_map());
    map
}

/// The two regions of the memory map lie one after the other from address
/// zero to the end of the first gigabyte, so every address below that end is
/// in exactly one of them and no other address is in either; each maps its
/// range onto itself. The window of the peripherals is marked never to be
/// executed from, privileged or not, and has no shareability bit; general
/// memory is inner shareable and may be executed from.
pub proof fn lemma_mem_map_partitions_first_gigabyte(address: u64)
    ensures
        ({
            let map = spec_bcm2837_mem_map();
            &&& map.len() == 2
            &&& map[0].virt == 0
            &&& map[0].virt + map[0].size == map[1].virt
            &&& map[1].virt + map[1].size == MAPPED_END
            &&& map[0].phys == map[0].virt && map[1].phys == map[1].virt
            &&& address < MAPPED_END ==> (map[0].spec_holds(address as int) != map[1].spec_holds(
                address as int,
            ))
            &&& address >= MAPPED_END ==> !map[0].spec_holds(address as int) && !map[1].spec_holds(
                address as int,
            )
            &&& map[1].attr.spec_contains(PXN)
            &&& map[1].attr.spec_contains(UXN)
            &&& map[1].attr.bits & (INNER_SHARE | OUTER_SHARE) == 0
            &&& map[0].attr.spec_contains(INNER_SHARE)
            &&& map[0].attr.spec_contains(NORMAL)
            &&& map[0].attr.bits & (PXN | UXN) == 0
        }),
{
    assert((DEVICE_NGNRNE | NON_SHARE | PXN | UXN) & PXN == PXN) by (bit_vector);
    assert((DEVICE_NGNRNE | NON_SHARE | PXN | UXN) & UXN == UXN) by (bit_vector);
    assert((DEVICE_NGNRNE | NON_SHARE | PXN | UXN) & (INNER_SHARE | OUTER_SHARE) == 0)
        by (bit_vector);
    assert((NORMAL | INNER_SHARE) & INNER_SHARE == INNER_SHARE) by (bit_vector);
    assert((NORMAL | INNER_SHARE) & NORMAL == NORMAL) by (bit_vector);
    assert((NORMAL | INNER_SHARE) & (PXN | UXN) == 0) by (bit_vector);
}

/// One step of programming the address space.
#[derive(Clone, Copy, Debug, PartialEq, Eq, Structural)]
pub enum SysOp {
    /// Data synchronisation barrier over the full system.
    DataSync,
    /// Write the table base register 0 of the exception level.
    WriteTableBase { el: u8, value: u64 },
    /// Write the control register of the exception level.
    WriteControl { el: u8, value: u64 },
    /// Write the memory attribute register of the exception level.
    WriteAttributes { el: u8, value: u64 },
    /// Instruction synchronisation barrier.
    InstructionSync,
    /// Stop for good: wait for events and never go on.
    Halt,
}

/// The core's number in the value of the core identification register.
pub open spec fn spec_cpu_id(mpidr: u64) -> u64 {
    mpidr & CORE_MASK
}

/// The exception level in the value of the register that reports it.
pub open spec fn spec_current_el(raw: u64) -> u8 {
    ((raw >> 2) & 0x3) as u8
}

/// The steps that set the address space of exception level `el`: a data
/// synchronisation barrier, the three writes, and an instruction
/// synchronisation barrier. For a level other than 1, 2 and 3 there is no
/// such register set: the core is halted after the barrier.
pub open spec fn spec_write_ttbr_tcr_mair(el: u8, base: u64, tcr: u64, attr: u64) -> Seq<SysOp> {
    if 1 <= el <= 3 {
        seq![
            SysOp::DataSync,
            SysOp::WriteTableBase { el, value: base },
            SysOp::WriteControl { el, value: tcr },
            SysOp::WriteAttributes { el, value: attr },
            SysOp::InstructionSync,
        ]
    } else {
        seq![SysOp::DataSync, SysOp::Halt]
    }
}

/// The core's number, from the value of the core identification register.
pub fn read_cpu_id(mpidr: u64) -> (core: u64)
    ensures
        core == spec_cpu_id(mpidr),
        core <= 3,
{
    assert(mpidr & 0x3 <= 3) by (bit_vector);
    mpidr & CORE_MASK
}

/// The exception level, from the value of the register that reports it in
/// its bits 2 and 3.
pub fn current_el(raw: u64) -> (el: u8)
    ensures
        el == spec_current_el(raw),
        el <= 3,
{
    assert((raw >> 2) & 0x3 <= 3) by (bit_vector);
    ((raw >> 2) & 0x3) as u8
}

/// The steps that set the address space of exception level `el` to the table
/// at `base` with the control value `tcr` and the memory attributes `attr`,
/// in the order in which they have to be taken.
pub fn write_ttbr_tcr_mair(el: u8, base: PhysicalAddress, tcr: u64, attr: u64) -> (steps: Vec<
    SysOp,
>)
    ensures
        steps@ == spec_write_ttbr_tcr_mair(el, base, tcr, attr),
{
    let mut steps: Vec<SysOp> = Vec::new();
    steps.push(SysOp::DataSync);
    if 1 <= el && el <= 3 {
        steps.push(SysOp::WriteTableBase { el, value: base });
        steps.push(SysOp::WriteControl { el, value: tcr });
        steps.push(SysOp::WriteAttributes { el, value: attr });
        steps.push(SysOp::InstructionSync);
    } else {
        steps.push(SysOp::Halt);
    }
    assert(steps@ =~= spec_write_ttbr_tcr_mair(el, base, tcr, attr));
    steps
}

/// The steps that set the address space of exception level 1 to the values
/// that its three registers hold already.
pub fn setup_paging(base: PhysicalAddress, tcr: u64, attr: u64) -> (steps: Vec<SysOp>)
    ensures
        steps@ == spec_write_ttbr_tcr_mair(1, base, tcr, attr),
        steps@.len() == 5,
{
    write_ttbr_tcr_mair(1, base, tcr, attr)
}

/// The steps of a configuration depend on nothing but the exception level
/// and the three values: two runs with the same inputs give the same steps
/// in the same order.
pub proof fn lemma_configuration_repeats(
    el: u8,
    base: u64,
    tcr: u64,
    attr: u64,
    first: Seq<SysOp>,
    second: Seq<SysOp>,
)
    requires
        first == spec_write_ttbr_tcr_mair(el, base, tcr, attr),
        second == spec_write_ttbr_tcr_mair(el, base, tcr, attr),
    ensures
        first == second,
{
}

/// Every configuration starts with the data synchronisation barrier. For a
/// level that has the registers, it ends with the instruction
/// synchronisation barrier, and each step between the two writes a register
/// of that level; for any other level the core is halted and no register is
/// written.
pub proof fn lemma_configuration_is_fenced(el: u8, base: u64, tcr: u64, attr: u64)
    ensures
        ({
            let steps = spec_write_ttbr_tcr_mair(el, base, tcr, attr);
            &&& steps[0] == SysOp::DataSync
            &&& 1 <= el <= 3 ==> {
                &&& steps.len() == 5
                &&& steps.last() == SysOp::InstructionSync
                &&& steps[1] == (SysOp::WriteTableBase { el, value: base })
                &&& steps[2] == (SysOp::WriteControl { el, value: tcr })
                &&& steps[3] == (SysOp::WriteAttributes { el, value: attr })
            }
            &&& !(1 <= el <= 3) ==> steps =~= seq![SysOp::DataSync, SysOp::Halt]
        }),
{
}

/// Where the BCM2837 puts its peripherals and its memory.
pub struct BcmHost;

impl BcmHost {
    /// The physical address at which the ARM core sees the peripherals.
    pub fn get_peripheral_address() -> (address: PhysicalAddress)
        ensures
            address == 0x3f00_0000,
    {
        0x3f00_0000
    }

    /// The size of the window of the peripherals in bytes.
    pub fn get_peripheral_size() -> (size: usize)
        ensures
            size == 0x0100_0000,
    {
        0x0100_0000
    }

    /// The bus address of the SDRAM, not cached.
    pub fn get_sdram_address() -> (address: PhysicalAddress)
        ensures
            address == 0xc000_0000,
    {
        0xc000_0000
    }
}

} // verus!
