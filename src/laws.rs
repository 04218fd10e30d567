//! Laws that relate the operations of a session.
use vstd::prelude::*;

use crate::algorithm::{in_flash, offset_of, program_effect, session_spec, unlock_spec, Function, TransferMode};
use crate::compare::{is_blank, is_match_len};
use crate::descriptor::{device_sectors, SectorInfo, EMPTY_VALUE, FLASH_ADDRESS, FLASH_SIZE, PAGE_SIZE, SECTOR_SIZE};
use crate::device::{fill_range, write_range, FlashState};

verus! {

/// For every run of the sector table and every sector `k` of it, erasing
/// that sector on an unlocked controller is accepted, and a blank check of
/// the sector for the empty value then passes.
pub proof fn erase_sector_then_blank(s: FlashState, i: int, k: int)
    requires
        s.array.len() == FLASH_SIZE,
        !s.locked,
        0 <= i < device_sectors().len(),
        0 <= k,
        device_sectors()[i].address + (k + 1) * device_sectors()[i].size <= FLASH_SIZE,
    ensures
        ({
            let sector = device_sectors()[i];
            let address = (FLASH_ADDRESS + sector.address + k * sector.size) as u32;
            let after = fill_range(s.array, offset_of(address), SECTOR_SIZE as int, EMPTY_VALUE);
            &&& sector.size == SECTOR_SIZE
            &&& in_flash(address, sector.size as int)
            &&& offset_of(address) % SECTOR_SIZE as int == 0
            &&& is_blank(
                after.subrange(offset_of(address), offset_of(address) + sector.size),
                sector.size as int,
                EMPTY_VALUE,
            )
        }),
{
    let sector = device_sectors()[i];
    assert(sector == SectorInfo { size: SECTOR_SIZE, address: 0 });
    assert(k * sector.size == k * 4096);
    assert(k < 64) by (nonlinear_arith)
        requires
            (k + 1) * 4096 <= 0x40000,
    ;
    let address = (FLASH_ADDRESS + sector.address + k * sector.size) as u32;
    assert(offset_of(address) == k * SECTOR_SIZE);
}

/// Erasing the whole array of an unlocked controller, then blank checking
/// the whole array for the empty value, passes.
pub proof fn erase_all_then_blank(s: FlashState)
    requires
        s.array.len() == FLASH_SIZE,
        !s.locked,
    ensures
        in_flash(FLASH_ADDRESS, FLASH_SIZE as int),
        is_blank(
            fill_range(s.array, 0, FLASH_SIZE as int, EMPTY_VALUE).subrange(0, FLASH_SIZE as int),
            FLASH_SIZE as int,
            EMPTY_VALUE,
        ),
{
}

/// In a session opened for programming, over either transfer path, a page
/// program of a whole page at a page-aligned address leaves exactly the
/// programmed bytes there.
pub proof fn program_then_read(s0: FlashState, transfer: TransferMode, address: u32, d: Seq<u8>)
    requires
        s0.array.len() == FLASH_SIZE,
        in_flash(address, d.len() as int),
        offset_of(address) % PAGE_SIZE as int == 0,
        d.len() == PAGE_SIZE,
    ensures
        program_effect(session_spec(s0, Function::Program, transfer), transfer, offset_of(address), d).subrange(
            offset_of(address),
            offset_of(address) + d.len(),
        ) == d,
{
    let s = session_spec(s0, Function::Program, transfer);
    assert(!s.locked);
    assert(transfer == TransferMode::Direct || s.dma_ready);
    let off = offset_of(address);
    assert(program_effect(s, transfer, off, d).subrange(off, off + d.len()) =~= d);
}

/// When the first `n` flash bytes equal the expected bytes, the match length
/// that verify reports is `n`; when they first differ at `k`, it is `k`; and
/// the match length is unique.
pub proof fn verify_match_length(flash: Seq<u8>, d: Seq<u8>, n: int, k: int)
    requires
        0 <= n <= flash.len(),
        n <= d.len(),
    ensures
        flash.subrange(0, n) == d.subrange(0, n) ==> is_match_len(flash, d, n, n),
        0 <= k < n && (forall|j: int| 0 <= j < k ==> flash[j] == d[j]) && flash[k] != d[k]
            ==> is_match_len(flash, d, n, k),
        forall|k1: int, k2: int|
            is_match_len(flash, d, n, k1) && is_match_len(flash, d, n, k2) ==> k1 == k2,
{
    if flash.subrange(0, n) == d.subrange(0, n) {
        assert forall|j: int| 0 <= j < n implies flash[j] == d[j] by {
            assert(flash.subrange(0, n)[j] == d.subrange(0, n)[j]);
        }
    }
    assert forall|k1: int, k2: int|
        is_match_len(flash, d, n, k1) && is_match_len(flash, d, n, k2) implies k1 == k2 by {
        if k1 < k2 {
            assert(flash[k1] == d[k1]);
        } else if k2 < k1 {
            assert(flash[k2] == d[k2]);
        }
    }
}

/// Unlocking twice leaves the controller as unlocking once does, with the
/// array and the option bytes unlocked.
pub proof fn unlock_idempotent(s: FlashState)
    ensures
        unlock_spec(unlock_spec(s)) == unlock_spec(s),
        !unlock_spec(s).locked,
        !unlock_spec(s).options_locked,
{
}

/// Opening a session for anything but verifying leaves the controller
/// unlocked, so erase and program then take effect.
pub proof fn session_unlocks(s0: FlashState, function: Function, transfer: TransferMode)
    requires
        function != Function::Verify,
    ensures
        !session_spec(s0, function, transfer).locked,
        !session_spec(s0, function, transfer).options_locked,
{
}

/// In a session opened for programming, a page program leaves the same array
/// over the direct and the chunked path: the old array with the programmed
/// bytes in place.
pub proof fn program_path_independent(s0: FlashState, address: u32, d: Seq<u8>)
    requires
        s0.array.len() == FLASH_SIZE,
        in_flash(address, d.len() as int),
    ensures
        program_effect(session_spec(s0, Function::Program, TransferMode::Direct), TransferMode::Direct, offset_of(address), d)
            == program_effect(session_spec(s0, Function::Program, TransferMode::Chunked), TransferMode::Chunked, offset_of(address), d),
        program_effect(session_spec(s0, Function::Program, TransferMode::Direct), TransferMode::Direct, offset_of(address), d)
            == write_range(s0.array, offset_of(address), d),
{
}

} // verus!
