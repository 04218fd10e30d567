use ag32_flash::algorithm::{Algorithm, Function, TransferMode};
use ag32_flash::compare::{blank_check_outcome, match_count, verify_outcome};
use ag32_flash::descriptor::{
    descriptor, sectors, SectorInfo, EMPTY_VALUE, FLASH_ADDRESS, FLASH_SIZE, PAGE_SIZE, SECTOR_SIZE,
};
use ag32_flash::device::{ControlBits, EraseMode, FlashDevice, FLASH_KEY1, FLASH_KEY2};
use ag32_flash::error::{ErrorCode, ERROR_FAILED, ERROR_MISALIGNED, ERROR_OUT_OF_RANGE};
use ag32_flash::flex_read::{capacity_bytes, capacity_request, control_word, unique_id_requests};
use ag32_flash::rcc::ClockSource;
use ag32_flash::session::{page_target, region_offset, sector_target, session_plan, unlock_writes, KeyWrite, SessionPlan};
use ag32_flash::transfer::{plan_chunks, TransferChunk, MAX_TRANSFER_WORDS};
use ag32_flash::Config;

fn session(function: Function, transfer: TransferMode) -> Algorithm {
    let device = FlashDevice::erased(ClockSource::Pll);
    match Algorithm::new(device, FLASH_ADDRESS, 8_000_000, function, transfer) {
        Ok(a) => a,
        Err(_) => panic!("a session always opens"),
    }
}

fn code(r: Result<(), ErrorCode>) -> u32 {
    match r {
        Ok(()) => panic!("expected an error"),
        Err(e) => e.get(),
    }
}

#[test]
fn error_code_rejects_zero() {
    assert!(ErrorCode::new(0).is_none());
    assert_eq!(ErrorCode::new(7).map(|e| e.get()), Some(7));
}

#[test]
fn config_defaults_to_internal_oscillator() {
    assert_eq!(ag32_flash::rcc::Config::new().sys, ClockSource::Hsi);
    let c: Config = Default::default();
    assert_eq!(c.rcc.sys, ClockSource::Hsi);
}

#[test]
fn descriptor_values() {
    let d = descriptor();
    assert_eq!(d.flash_address, 0x8000_0000);
    assert_eq!(d.flash_size, 0x40000);
    assert_eq!(d.page_size, 0x1000);
    assert_eq!(d.empty_value, 0xFF);
    assert_eq!(d.program_time_out, 10000);
    assert_eq!(d.erase_time_out, 1000);
    assert_eq!(sectors(), vec![SectorInfo { size: 0x1000, address: 0 }]);
}

#[test]
fn capacity_decoding() {
    assert_eq!(capacity_bytes(0x7F_FFFF), 0x10_0000);
    assert_eq!(capacity_bytes(0x1F_FFFF), 0x4_0000);
    assert_eq!(capacity_bytes(0), 0);
    assert_eq!(capacity_bytes(6), 0);
    assert_eq!(capacity_bytes(7), 1);
    assert_eq!(capacity_bytes(u32::MAX), 0x2000_0000);
}

#[test]
fn flex_read_control_words() {
    assert_eq!(control_word(0x5A, true, 4, 1), 0x8001_045A);
    assert_eq!(control_word(0x4B, false, 16, 0), 0x0000_104B);
    assert_eq!(control_word(0xFF, true, 0xFF, 0xFF), 0x80FF_FFFF);
    let c = capacity_request();
    assert_eq!(c.address, 0x34);
    assert_eq!(c.control_word(), 0x8001_045A);
    let ids = unique_id_requests();
    let words: Vec<u32> = ids.iter().map(|r| r.control_word()).collect();
    assert_eq!(words, vec![0x0000_044B, 0x0000_084B, 0x0000_0C4B, 0x0000_104B]);
    assert!(ids.iter().all(|r| !r.has_address));
}

#[test]
fn chunk_plan_full_and_remainder() {
    assert_eq!(plan_chunks(0), vec![]);
    assert_eq!(plan_chunks(1024), vec![TransferChunk { offset: 0, words: 1024 }]);
    let plan = plan_chunks(4097);
    assert_eq!(plan.len(), 5);
    for (i, c) in plan.iter().take(4).enumerate() {
        assert_eq!(c.offset as usize, i * 4096);
        assert_eq!(c.words, MAX_TRANSFER_WORDS);
    }
    assert_eq!(plan[4], TransferChunk { offset: 16384, words: 1 });
    assert_eq!(plan_chunks(10), vec![TransferChunk { offset: 0, words: 10 }]);
}

#[test]
fn erase_modes_are_exclusive() {
    let all = ControlBits { per: true, mer: true, ber: true, pg: true, fastpg: false, optpg: false, read: false };
    let s = all.with_erase_mode(EraseMode::Sector);
    assert!(!s.per && !s.mer && s.ber && s.pg);
    let cleared = s.without_erase_mode();
    assert!(!cleared.per && !cleared.mer && !cleared.ber && cleared.pg);
}

#[test]
fn key_sequence_unlocks_only_in_order() {
    let mut d = FlashDevice::erased(ClockSource::Hsi);
    d.write_key(FLASH_KEY2);
    d.write_key(FLASH_KEY1);
    assert!(d.lock_bit());
    d.write_key(FLASH_KEY2);
    assert!(!d.lock_bit());
    assert!(!d.option_write_enabled());
    d.write_option_key(FLASH_KEY1);
    d.write_option_key(0);
    d.write_option_key(FLASH_KEY2);
    assert!(!d.option_write_enabled());
}

#[test]
fn unlock_twice_is_unlock_once() {
    let mut a = session(Function::Erase, TransferMode::Direct);
    assert!(!a.device().lock_bit());
    a.unlock();
    assert!(!a.device().lock_bit());
    assert!(a.device().option_write_enabled());
    let mut v = session(Function::Verify, TransferMode::Direct);
    assert!(v.device().lock_bit());
    v.unlock();
    v.unlock();
    assert!(!v.device().lock_bit());
    assert!(v.device().option_write_enabled());
}

#[test]
fn erase_sector_then_blank_check_every_sector() {
    let mut a = session(Function::Program, TransferMode::Direct);
    let page = vec![0u8; FLASH_SIZE as usize];
    assert!(a.program_page(FLASH_ADDRESS, &page).is_ok());
    let mut addr = FLASH_ADDRESS;
    while addr < FLASH_ADDRESS + FLASH_SIZE {
        assert_eq!(code(a.blank_check(addr, SECTOR_SIZE, EMPTY_VALUE)), ERROR_FAILED);
        assert!(a.erase_sector(addr).is_ok());
        assert!(a.blank_check(addr, SECTOR_SIZE, EMPTY_VALUE).is_ok());
        addr += SECTOR_SIZE;
    }
}

#[test]
fn erase_all_then_blank_check() {
    let mut a = session(Function::Program, TransferMode::Chunked);
    assert!(a.program_page(FLASH_ADDRESS + 0x2000, &[1, 2, 3, 4, 5]).is_ok());
    assert_eq!(code(a.blank_check(FLASH_ADDRESS, FLASH_SIZE, EMPTY_VALUE)), ERROR_FAILED);
    assert!(a.erase_all().is_ok());
    assert!(a.blank_check(FLASH_ADDRESS, FLASH_SIZE, EMPTY_VALUE).is_ok());
}

fn pattern(len: usize) -> Vec<u8> {
    (0..len).map(|i| (i * 7 + 3) as u8).collect()
}

#[test]
fn program_then_read_both_paths() {
    for mode in [TransferMode::Direct, TransferMode::Chunked] {
        for len in [PAGE_SIZE as usize, 4097 * 4, 4099, 3, 0] {
            let mut a = session(Function::Program, mode);
            let d = pattern(len);
            let addr = FLASH_ADDRESS + PAGE_SIZE;
            assert!(a.program_page(addr, &d).is_ok());
            assert_eq!(a.read(addr, len as u32), Some(d));
            assert_eq!(a.read(addr - 1, 1), Some(vec![EMPTY_VALUE]));
            assert_eq!(a.read(addr + len as u32, 1), Some(vec![EMPTY_VALUE]));
        }
    }
}

#[test]
fn chunked_path_without_setup_lands_only_the_tail() {
    let mut a = session(Function::Erase, TransferMode::Chunked);
    let d = pattern(4099);
    assert!(a.program_page(FLASH_ADDRESS, &d).is_ok());
    let got = a.read(FLASH_ADDRESS, 4099).unwrap();
    assert!(got[..4096].iter().all(|b| *b == EMPTY_VALUE));
    assert_eq!(&got[4096..], &d[4096..]);
}

#[test]
fn locked_controller_keeps_flash() {
    let mut a = session(Function::Verify, TransferMode::Direct);
    assert!(a.program_page(FLASH_ADDRESS, &[0, 0, 0, 0]).is_ok());
    assert!(a.erase_all().is_ok());
    assert_eq!(a.read(FLASH_ADDRESS, 4), Some(vec![EMPTY_VALUE; 4]));
}

#[test]
fn verify_reports_end_of_matching_prefix() {
    let mut a = session(Function::Program, TransferMode::Direct);
    let d = pattern(PAGE_SIZE as usize);
    assert!(a.program_page(FLASH_ADDRESS, &d).is_ok());
    assert_eq!(code(a.verify(FLASH_ADDRESS, PAGE_SIZE, Some(&d))), FLASH_ADDRESS + PAGE_SIZE);
    let mut e = d.clone();
    e[100] ^= 0xFF;
    assert_eq!(code(a.verify(FLASH_ADDRESS, PAGE_SIZE, Some(&e))), FLASH_ADDRESS + 100);
    e[0] ^= 0xFF;
    assert_eq!(code(a.verify(FLASH_ADDRESS, PAGE_SIZE, Some(&e))), FLASH_ADDRESS);
    assert_eq!(code(a.verify(FLASH_ADDRESS + 8, 0, Some(&e))), FLASH_ADDRESS + 8);
    assert_eq!(code(a.verify(0x10, 4, Some(&e))), ERROR_OUT_OF_RANGE);
}

#[test]
fn compare_helpers() {
    assert_eq!(match_count(&[1, 2, 3, 4], &[1, 2, 9, 4], 4), 2);
    assert_eq!(match_count(&[1, 2, 3, 4], &[1, 2, 3, 4, 5], 4), 4);
    assert_eq!(code(verify_outcome(0x100, &[1, 2], &[1, 3])), 0x101);
    assert_eq!(code(verify_outcome(0x200, &[1], &[2])), 0x200);
    assert!(blank_check_outcome(&[], 0xAA).is_ok());
    assert!(blank_check_outcome(&[0xAA, 0xAA], 0xAA).is_ok());
    assert_eq!(code(blank_check_outcome(&[0xAA, 0xAB], 0xAA)), ERROR_FAILED);
}

#[test]
fn address_errors() {
    let mut a = session(Function::Program, TransferMode::Direct);
    assert_eq!(code(a.erase_sector(0x0)), ERROR_OUT_OF_RANGE);
    assert_eq!(code(a.erase_sector(FLASH_ADDRESS + FLASH_SIZE)), ERROR_OUT_OF_RANGE);
    assert_eq!(code(a.erase_sector(FLASH_ADDRESS + 0x10)), ERROR_MISALIGNED);
    assert_eq!(code(a.program_page(FLASH_ADDRESS + 0x10, &[1])), ERROR_MISALIGNED);
    assert_eq!(code(a.program_page(FLASH_ADDRESS + FLASH_SIZE - PAGE_SIZE, &pattern(PAGE_SIZE as usize + 1))), ERROR_OUT_OF_RANGE);
    assert_eq!(code(a.program_page(u32::MAX, &[1])), ERROR_OUT_OF_RANGE);
    assert_eq!(code(a.blank_check(FLASH_ADDRESS, FLASH_SIZE + 1, EMPTY_VALUE)), ERROR_OUT_OF_RANGE);
    assert_eq!(a.read(FLASH_ADDRESS - 1, 1), None);
}

#[test]
fn program_session_scenario() {
    let mut a = session(Function::Program, TransferMode::Chunked);
    assert_eq!(a.function(), Function::Program);
    assert_eq!(a.transfer_mode(), TransferMode::Chunked);
    let _ = a.erase_sector(0x0);
    assert!(a.program_page(0x8000_0000, &[0xAA; 4096]).is_ok());
    assert!(a.blank_check(0x8000_0000, 4096, 0xAA).is_ok());
}

#[test]
fn session_scenario_with_absolute_sector() {
    let mut a = session(Function::Program, TransferMode::Direct);
    assert!(a.erase_sector(0x8000_0000).is_ok());
    assert!(a.program_page(0x8000_0000, &[0xAA; 4096]).is_ok());
    assert!(a.blank_check(0x8000_0000, 4096, 0xAA).is_ok());
    assert_eq!(code(a.blank_check(0x8000_0000, 4097, 0xAA)), ERROR_FAILED);
}

#[test]
fn opening_a_session_prepares_the_controller() {
    let device = FlashDevice::erased(ClockSource::Pll);
    assert!(device.interrupts_enabled());
    assert_eq!(device.clock(), (ClockSource::Pll, 1));
    for (function, transfer, dma) in [
        (Function::Program, TransferMode::Chunked, true),
        (Function::Program, TransferMode::Direct, false),
        (Function::Erase, TransferMode::Chunked, false),
        (Function::Verify, TransferMode::Chunked, false),
        (Function::BlankCheck, TransferMode::Direct, false),
    ] {
        let a = session(function, transfer);
        let d = a.device();
        assert_eq!(d.clock(), (ClockSource::Hsi, 0));
        assert!(!d.interrupts_enabled());
        assert_eq!(d.dma_ready(), dma);
        assert_eq!(d.lock_bit(), function == Function::Verify);
        assert_eq!(d.option_write_enabled(), function != Function::Verify);
        assert_eq!(d.control(), ControlBits::idle());
    }
}

#[test]
fn session_plans() {
    let p = |unlock, init_dma| SessionPlan { unlock, init_dma };
    assert_eq!(session_plan(Function::Program, TransferMode::Chunked), p(true, true));
    assert_eq!(session_plan(Function::Program, TransferMode::Direct), p(true, false));
    assert_eq!(session_plan(Function::Erase, TransferMode::Chunked), p(true, false));
    assert_eq!(session_plan(Function::BlankCheck, TransferMode::Chunked), p(true, false));
    assert_eq!(session_plan(Function::Verify, TransferMode::Chunked), p(false, false));
    assert_eq!(session_plan(Function::Verify, TransferMode::Direct), p(false, false));
}

#[test]
fn unlock_key_writes() {
    assert_eq!(
        unlock_writes(true, false),
        vec![KeyWrite::MainKey(0x4567_0123), KeyWrite::MainKey(0xCDEF_89AB), KeyWrite::OptionKey(0x4567_0123), KeyWrite::OptionKey(0xCDEF_89AB)]
    );
    assert_eq!(unlock_writes(true, true), vec![KeyWrite::MainKey(FLASH_KEY1), KeyWrite::MainKey(FLASH_KEY2)]);
    assert_eq!(unlock_writes(false, false), vec![KeyWrite::OptionKey(FLASH_KEY1), KeyWrite::OptionKey(FLASH_KEY2)]);
    assert_eq!(unlock_writes(false, true), vec![]);
}

#[test]
fn address_targets() {
    let c = |r: Result<u32, ErrorCode>| r.map_err(|e| e.get());
    assert_eq!(c(sector_target(0x8000_3000)), Ok(0x8000_3000));
    assert_eq!(c(sector_target(0x8003_F000)), Ok(0x8003_F000));
    assert_eq!(c(sector_target(0x0)), Err(ERROR_OUT_OF_RANGE));
    assert_eq!(c(sector_target(0x8004_0000)), Err(ERROR_OUT_OF_RANGE));
    assert_eq!(c(sector_target(0x8000_3004)), Err(ERROR_MISALIGNED));
    assert_eq!(c(page_target(0x8000_1000, 4096)), Ok(0x1000));
    assert_eq!(c(page_target(0x8003_F000, 4097)), Err(ERROR_OUT_OF_RANGE));
    assert_eq!(c(page_target(0x8000_1001, 1)), Err(ERROR_MISALIGNED));
    assert_eq!(c(region_offset(0x8000_0010, 0x10)), Ok(0x10));
    assert_eq!(c(region_offset(0x8004_0000, 0)), Ok(FLASH_SIZE));
    assert_eq!(c(region_offset(0x8004_0000, 1)), Err(ERROR_OUT_OF_RANGE));
    assert_eq!(c(region_offset(0x7FFF_FFFF, 1)), Err(ERROR_OUT_OF_RANGE));
}
