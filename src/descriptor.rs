//! The static flash descriptor that the host reads before any call.
use vstd::prelude::*;

verus! {

/// Base address of the flash array.
pub const FLASH_ADDRESS: u32 = 0x8000_0000;

/// Total size of the flash array in bytes.
pub const FLASH_SIZE: u32 = 0x40000;

/// Logical page size in bytes; the physical write unit is 256 bytes, the
/// larger page amortises the per-call overhead.
pub const PAGE_SIZE: u32 = 0x1000;

/// Value of an erased byte.
pub const EMPTY_VALUE: u8 = 0xFF;

/// Time budget of one page program, in milliseconds.
pub const PROGRAM_TIME_OUT: u32 = 10000;

/// Time budget of one sector erase, in milliseconds.
pub const ERASE_TIME_OUT: u32 = 1000;

/// Size of every sector, in bytes.
pub const SECTOR_SIZE: u32 = 0x1000;

/// One run of equal sectors: their size and the offset at which the run begins.
#[derive(Clone, Copy, Debug, PartialEq, Eq, Structural)]
pub struct SectorInfo {
    pub size: u32,
    pub address: u32,
}

/// The metadata the host reads: base address, sizes, erased value and time budgets.
#[derive(Clone, Copy, Debug, PartialEq, Eq, Structural)]
pub struct FlashDescriptor {
    pub flash_address: u32,
    pub flash_size: u32,
    pub page_size: u32,
    pub empty_value: u8,
    pub program_time_out: u32,
    pub erase_time_out: u32,
}

/// `n` is a power of two.
pub open spec fn is_power_of_two(n: nat) -> bool
    decreases n,
{
    if n == 1 {
        true
    } else if n == 0 || n % 2 == 1 {
        false
    } else {
        is_power_of_two(n / 2)
    }
}

/// The array fits the address space, its size is a multiple of every sector
/// size, and the page size is a power of two.
pub open spec fn descriptor_wf(d: FlashDescriptor, sectors: Seq<SectorInfo>) -> bool {
    &&& d.flash_address as int + d.flash_size as int <= u32::MAX as int + 1
    &&& is_power_of_two(d.page_size as nat)
    &&& forall|i: int|
        0 <= i < sectors.len() ==> sectors[i].size > 0 && d.flash_size % sectors[i].size == 0
            && sectors[i].address < d.flash_size
}

/// The descriptor of this device.
pub open spec fn device_descriptor() -> FlashDescriptor {
    FlashDescriptor {
        flash_address: FLASH_ADDRESS,
        flash_size: FLASH_SIZE,
        page_size: PAGE_SIZE,
        empty_value: EMPTY_VALUE,
        program_time_out: PROGRAM_TIME_OUT,
        erase_time_out: ERASE_TIME_OUT,
    }
}

/// The sector table of this device: one run of 4 KiB sectors from offset 0.
pub open spec fn device_sectors() -> Seq<SectorInfo> {
    seq![SectorInfo { size: SECTOR_SIZE, address: 0 }]
}

/// The descriptor of this device.
pub fn descriptor() -> (r: FlashDescriptor)
    ensures
        r == device_descriptor(),
{
    FlashDescriptor {
        flash_address: FLASH_ADDRESS,
        flash_size: FLASH_SIZE,
        page_size: PAGE_SIZE,
        empty_value: EMPTY_VALUE,
        program_time_out: PROGRAM_TIME_OUT,
        erase_time_out: ERASE_TIME_OUT,
    }
}

/// The sector table of this device.
pub fn sectors() -> (r: Vec<SectorInfo>)
    ensures
        r@ == device_sectors(),
{
    let mut r: Vec<SectorInfo> = Vec::new();
    r.push(SectorInfo { size: SECTOR_SIZE, address: 0 });
    assert(r@ =~= device_sectors());
    r
}

/// The descriptor of this device is well formed.
pub proof fn device_descriptor_wf()
    ensures
        descriptor_wf(device_descriptor(), device_sectors()),
{
    reveal_with_fuel(is_power_of_two, 14);
    assert(is_power_of_two(PAGE_SIZE as nat));
}

} // verus!
