//! Identifiers of the property tags that the firmware understands.

use vstd::prelude::*;

verus! {

#[allow(non_upper_case_globals)]
pub const GetBoardRev: u32 = 0x0001_0002;

#[allow(non_upper_case_globals)]
pub const GetMacAddress: u32 = 0x0001_0003;

#[allow(non_upper_case_globals)]
pub const GetBoardSerial: u32 = 0x0001_0004;

#[allow(non_upper_case_globals)]
pub const GetArmMemory: u32 = 0x0001_0005;

#[allow(non_upper_case_globals)]
pub const GetPowerState: u32 = 0x0002_0001;

#[allow(non_upper_case_globals)]
pub const SetPowerState: u32 = 0x0002_8001;

#[allow(non_upper_case_globals)]
pub const GetClockRate: u32 = 0x0003_0002;

#[allow(non_upper_case_globals)]
pub const AllocateBuffer: u32 = 0x0004_0001;

#[allow(non_upper_case_globals)]
pub const ReleaseBuffer: u32 = 0x0004_8001;

#[allow(non_upper_case_globals)]
pub const BlankScreen: u32 = 0x0004_0002;

/// Physical means the output signal.
#[allow(non_upper_case_globals)]
pub const GetPhysicalWH: u32 = 0x0004_0003;

#[allow(non_upper_case_globals)]
pub const TestPhysicalWH: u32 = 0x0004_4003;

#[allow(non_upper_case_globals)]
pub const SetPhysicalWH: u32 = 0x0004_8003;

/// Virtual means the display buffer.
#[allow(non_upper_case_globals)]
pub const GetVirtualWH: u32 = 0x0004_0004;

#[allow(non_upper_case_globals)]
pub const TestVirtualWH: u32 = 0x0004_4004;

#[allow(non_upper_case_globals)]
pub const SetVirtualWH: u32 = 0x0004_8004;

#[allow(non_upper_case_globals)]
pub const GetDepth: u32 = 0x0004_0005;

#[allow(non_upper_case_globals)]
pub const TestDepth: u32 = 0x0004_4005;

#[allow(non_upper_case_globals)]
pub const SetDepth: u32 = 0x0004_8005;

#[allow(non_upper_case_globals)]
pub const GetPixelOrder: u32 = 0x0004_0006;

#[allow(non_upper_case_globals)]
pub const TestPixelOrder: u32 = 0x0004_4006;

#[allow(non_upper_case_globals)]
pub const SetPixelOrder: u32 = 0x0004_8006;

#[allow(non_upper_case_globals)]
pub const GetAlphaMode: u32 = 0x0004_0007;

#[allow(non_upper_case_globals)]
pub const TestAlphaMode: u32 = 0x0004_4007;

#[allow(non_upper_case_globals)]
pub const SetAlphaMode: u32 = 0x0004_8007;

#[allow(non_upper_case_globals)]
pub const GetPitch: u32 = 0x0004_0008;

/// Offset of the display window within the buffer.
#[allow(non_upper_case_globals)]
pub const GetVirtualOffset: u32 = 0x0004_0009;

#[allow(non_upper_case_globals)]
pub const TestVirtualOffset: u32 = 0x0004_4009;

#[allow(non_upper_case_globals)]
pub const SetVirtualOffset: u32 = 0x0004_8009;

#[allow(non_upper_case_globals)]
pub const GetOverscan: u32 = 0x0004_000a;

#[allow(non_upper_case_globals)]
pub const TestOverscan: u32 = 0x0004_400a;

#[allow(non_upper_case_globals)]
pub const SetOverscan: u32 = 0x0004_800a;

#[allow(non_upper_case_globals)]
pub const GetPalette: u32 = 0x0004_000b;

#[allow(non_upper_case_globals)]
pub const TestPalette: u32 = 0x0004_400b;

#[allow(non_upper_case_globals)]
pub const SetPalette: u32 = 0x0004_800b;

/// The marker that ends the list of tags in a message.
#[allow(non_upper_case_globals)]
pub const End: u32 = 0;

} // verus!
