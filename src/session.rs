//! The decisions of a session, as values the register layer carries out:
//! what to set up when a session opens, which keys to write to unlock, and
//! which addresses an operation may touch.
use vstd::prelude::*;

use crate::algorithm::{fails_with, in_flash, offset_of, Function, TransferMode};
use crate::descriptor::{FLASH_ADDRESS, FLASH_SIZE, PAGE_SIZE, SECTOR_SIZE};
use crate::device::{FLASH_KEY1, FLASH_KEY2};
use crate::error::{ErrorCode, ERROR_MISALIGNED, ERROR_OUT_OF_RANGE};

verus! {

/// What opening a session sets up besides the clock and interrupts.
#[derive(Clone, Copy, Debug, PartialEq, Eq, Structural)]
pub struct SessionPlan {
    /// Run the unlock sequence.
    pub unlock: bool,
    /// Reset and enable the bulk-transfer controller.
    pub init_dma: bool,
}

/// A session unlocks unless it only verifies, and sets up the bulk-transfer
/// controller only when it programs through chunked transfers.
pub fn session_plan(function: Function, transfer: TransferMode) -> (r: SessionPlan)
    ensures
        r.unlock == (function != Function::Verify),
        r.init_dma == (function == Function::Program && transfer == TransferMode::Chunked),
{
    SessionPlan {
        unlock: function != Function::Verify,
        init_dma: function == Function::Program && transfer == TransferMode::Chunked,
    }
}

/// One write to a key register.
#[derive(Clone, Copy, Debug, PartialEq, Eq, Structural)]
pub enum KeyWrite {
    /// A write to the key register of the main array.
    MainKey(u32),
    /// A write to the key register of the option bytes.
    OptionKey(u32),
}

/// The key writes of the unlock sequence, in order.
pub open spec fn unlock_writes_spec(lock_set: bool, option_write_enabled: bool) -> Seq<KeyWrite> {
    (if lock_set {
        seq![KeyWrite::MainKey(FLASH_KEY1), KeyWrite::MainKey(FLASH_KEY2)]
    } else {
        seq![]
    }) + (if !option_write_enabled {
        seq![KeyWrite::OptionKey(FLASH_KEY1), KeyWrite::OptionKey(FLASH_KEY2)]
    } else {
        seq![]
    })
}

/// The key pair goes to the main key register when the lock bit is set, and
/// to the option key register when option writes are disabled.
pub fn unlock_writes(lock_set: bool, option_write_enabled: bool) -> (r: Vec<KeyWrite>)
    ensures
        r@ == unlock_writes_spec(lock_set, option_write_enabled),
{
    let mut r: Vec<KeyWrite> = Vec::new();
    if lock_set {
        r.push(KeyWrite::MainKey(FLASH_KEY1));
        r.push(KeyWrite::MainKey(FLASH_KEY2));
    }
    if !option_write_enabled {
        r.push(KeyWrite::OptionKey(FLASH_KEY1));
        r.push(KeyWrite::OptionKey(FLASH_KEY2));
    }
    assert(r@ =~= unlock_writes_spec(lock_set, option_write_enabled));
    r
}

/// The address to latch for erasing the sector at `address`: it must lie in
/// the array and begin a sector.
pub fn sector_target(address: u32) -> (r: Result<u32, ErrorCode>)
    ensures
        !in_flash(address, 1) ==> fails_with(r, ERROR_OUT_OF_RANGE),
        in_flash(address, 1) && offset_of(address) % SECTOR_SIZE as int != 0 ==> fails_with(
            r,
            ERROR_MISALIGNED,
        ),
        in_flash(address, 1) && offset_of(address) % SECTOR_SIZE as int == 0 ==> r == Ok::<
            u32,
            ErrorCode,
        >(address),
{
    if address < FLASH_ADDRESS || address - FLASH_ADDRESS >= FLASH_SIZE {
        return Err(ErrorCode::from_nonzero(ERROR_OUT_OF_RANGE));
    }
    if (address - FLASH_ADDRESS) % SECTOR_SIZE != 0 {
        return Err(ErrorCode::from_nonzero(ERROR_MISALIGNED));
    }
    Ok(address)
}

/// The array offset of `len` bytes from `address`, which must lie in the array.
pub fn region_offset(address: u32, len: usize) -> (r: Result<u32, ErrorCode>)
    ensures
        !in_flash(address, len as int) ==> fails_with(r, ERROR_OUT_OF_RANGE),
        in_flash(address, len as int) ==> r == Ok::<u32, ErrorCode>(offset_of(address) as u32),
{
    if address < FLASH_ADDRESS || address - FLASH_ADDRESS > FLASH_SIZE || len as u64 > (FLASH_SIZE
        - (address - FLASH_ADDRESS)) as u64 {
        return Err(ErrorCode::from_nonzero(ERROR_OUT_OF_RANGE));
    }
    Ok(address - FLASH_ADDRESS)
}

/// The array offset of a page program of `len` bytes at `address`: the bytes
/// must lie in the array and `address` must begin a page.
pub fn page_target(address: u32, len: usize) -> (r: Result<u32, ErrorCode>)
    ensures
        !in_flash(address, len as int) ==> fails_with(r, ERROR_OUT_OF_RANGE),
        in_flash(address, len as int) && offset_of(address) % PAGE_SIZE as int != 0 ==> fails_with(
            r,
            ERROR_MISALIGNED,
        ),
        in_flash(address, len as int) && offset_of(address) % PAGE_SIZE as int == 0 ==> r == Ok::<
            u32,
            ErrorCode,
        >(offset_of(address) as u32),
{
    let off = region_offset(address, len)?;
    if off % PAGE_SIZE != 0 {
        return Err(ErrorCode::from_nonzero(ERROR_MISALIGNED));
    }
    Ok(off)
}

} // verus!
