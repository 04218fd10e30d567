//! The algorithm controller: one session of unlock, erase, program, verify
//! and blank check on a flash controller it owns.
use vstd::prelude::*;

use crate::compare::{blank_check_outcome, is_blank, is_match_len, verify_outcome};
use crate::descriptor::{EMPTY_VALUE, FLASH_ADDRESS, FLASH_SIZE, PAGE_SIZE, SECTOR_SIZE};
use crate::device::{
    fill_range, key_step, write_range, ControlBits, EraseMode, FlashDevice, FlashState, FLASH_KEY1, FLASH_KEY2,
};
use crate::session::{
    page_target, region_offset, sector_target, session_plan, unlock_writes, unlock_writes_spec, KeyWrite,
};
use crate::error::{ErrorCode, ERROR_FAILED, ERROR_MISALIGNED, ERROR_OUT_OF_RANGE};
use crate::rcc::ClockSource;
use crate::transfer::{chunk_at, chunk_count, plan_chunks, MAX_TRANSFER_WORDS};

verus! {

/// The operation a session is opened for.
#[derive(Clone, Copy, Debug, PartialEq, Eq, Structural)]
pub enum Function {
    Erase,
    Program,
    Verify,
    BlankCheck,
}

/// How page data reaches the flash array.
#[derive(Clone, Copy, Debug, PartialEq, Eq, Structural)]
pub enum TransferMode {
    /// The core copies the bytes itself.
    Direct,
    /// The bulk-transfer controller copies whole words in bounded chunks;
    /// the core copies the trailing bytes.
    Chunked,
}

/// `len` bytes from `address` lie in the flash array.
pub open spec fn in_flash(address: u32, len: int) -> bool {
    FLASH_ADDRESS <= address && (address - FLASH_ADDRESS) + len <= FLASH_SIZE
}

/// Offset of `address` in the flash array.
pub open spec fn offset_of(address: u32) -> int {
    address - FLASH_ADDRESS
}

/// `r` is an error carrying `code`.
pub open spec fn fails_with<T>(r: Result<T, ErrorCode>, code: u32) -> bool {
    r matches Err(e) && e.value() == code
}

/// The controller after the unlock sequence: the key pair is written to the
/// main key register when the array is locked, and to the option key
/// register when option writes are disabled.
pub open spec fn unlock_spec(s: FlashState) -> FlashState {
    let s1 = if s.locked {
        FlashState { locked: false, key_armed: false, ..s }
    } else {
        s
    };
    if s1.options_locked {
        FlashState { options_locked: false, option_key_armed: false, ..s1 }
    } else {
        s1
    }
}

/// The controller once a session for `function` is open: internal clock
/// undivided, interrupts off, unlocked unless the session only verifies, and
/// the bulk-transfer controller set up for chunked programming sessions.
pub open spec fn session_spec(s: FlashState, function: Function, transfer: TransferMode) -> FlashState {
    let s1 = FlashState {
        clock: ClockSource::Hsi,
        clock_divider: 0,
        interrupts_enabled: false,
        interrupt_controller_enabled: false,
        ..s
    };
    let s2 = if function != Function::Verify {
        unlock_spec(s1)
    } else {
        s1
    };
    if function == Function::Program && transfer == TransferMode::Chunked {
        FlashState { dma_ready: true, ..s2 }
    } else {
        s2
    }
}

/// The array after a page program of `data` at offset `off`. A locked
/// controller takes nothing; without a set-up transfer controller, the
/// chunked path lands only the trailing bytes.
pub open spec fn program_effect(s: FlashState, transfer: TransferMode, off: int, data: Seq<u8>) -> Seq<u8> {
    let whole: int = 4 * (data.len() / 4) as int;
    if s.locked {
        s.array
    } else if transfer == TransferMode::Direct || s.dma_ready {
        write_range(s.array, off, data)
    } else {
        write_range(s.array, off + whole, data.subrange(whole, data.len() as int))
    }
}

/// Control bits with the erase modes cleared.
pub open spec fn erase_cleared(cr: ControlBits) -> ControlBits {
    ControlBits { per: false, mer: false, ber: false, ..cr }
}

/// Control bits with the program modes cleared.
pub open spec fn program_cleared(cr: ControlBits) -> ControlBits {
    ControlBits { pg: false, fastpg: false, optpg: false, ..cr }
}

proof fn lemma_write_range_concat(arr: Seq<u8>, off: int, d: Seq<u8>, c: int, w: int)
    requires
        0 <= c <= c + w <= d.len(),
    ensures
        write_range(write_range(arr, off, d.subrange(0, c)), off + c, d.subrange(c, c + w))
            == write_range(arr, off, d.subrange(0, c + w)),
{
    assert(write_range(write_range(arr, off, d.subrange(0, c)), off + c, d.subrange(c, c + w))
        =~= write_range(arr, off, d.subrange(0, c + w)));
}

/// The controller after one key write.
pub open spec fn apply_write(s: FlashState, w: KeyWrite) -> FlashState {
    match w {
        KeyWrite::MainKey(k) => {
            let (locked, armed) = key_step(s.locked, s.key_armed, k);
            FlashState { locked, key_armed: armed, ..s }
        },
        KeyWrite::OptionKey(k) => {
            let (locked, armed) = key_step(s.options_locked, s.option_key_armed, k);
            FlashState { options_locked: locked, option_key_armed: armed, ..s }
        },
    }
}

/// The controller after a run of key writes, in order.
pub open spec fn apply_writes(s: FlashState, ws: Seq<KeyWrite>) -> FlashState
    decreases ws.len(),
{
    if ws.len() == 0 {
        s
    } else {
        apply_writes(apply_write(s, ws[0]), ws.skip(1))
    }
}

proof fn lemma_apply_pair(s: FlashState, a: KeyWrite, b: KeyWrite, rest: Seq<KeyWrite>)
    ensures
        apply_writes(s, seq![a, b] + rest) == apply_writes(apply_write(apply_write(s, a), b), rest),
{
    reveal_with_fuel(apply_writes, 2);
    let ws = seq![a, b] + rest;
    assert(ws[0] == a);
    assert(ws.skip(1) =~= seq![b] + rest);
    assert((seq![b] + rest)[0] == b);
    assert((seq![b] + rest).skip(1) =~= rest);
}

proof fn lemma_unlock_writes(s: FlashState)
    ensures
        apply_writes(s, unlock_writes_spec(s.locked, !s.options_locked)) == unlock_spec(s),
{
    let empty = Seq::<KeyWrite>::empty();
    let main = seq![KeyWrite::MainKey(FLASH_KEY1), KeyWrite::MainKey(FLASH_KEY2)];
    let opt = seq![KeyWrite::OptionKey(FLASH_KEY1), KeyWrite::OptionKey(FLASH_KEY2)];
    let s1 = if s.locked {
        apply_write(apply_write(s, main[0]), main[1])
    } else {
        s
    };
    if s.locked {
        lemma_apply_pair(s, main[0], main[1], if s.options_locked { opt } else { empty });
    } else {
        assert(empty + (if s.options_locked { opt } else { empty }) =~= (if s.options_locked { opt } else { empty }));
    }
    if s.options_locked {
        lemma_apply_pair(s1, opt[0], opt[1], empty);
        assert(opt =~= seq![opt[0], opt[1]] + empty);
    } else {
        assert(main + empty =~= main);
    }
    assert(main =~= seq![main[0], main[1]]);
}

fn unlock_device(device: &mut FlashDevice)
    requires
        old(device).wf(),
    ensures
        final(device).wf(),
        final(device)@ == unlock_spec(old(device)@),
{
    let ghost s0 = device@;
    let writes = unlock_writes(device.lock_bit(), device.option_write_enabled());
    let mut i: usize = 0;
    assert(writes@.skip(0) =~= writes@);
    while i < writes.len()
        invariant
            device.wf(),
            i <= writes@.len(),
            apply_writes(device@, writes@.skip(i as int)) == apply_writes(s0, writes@),
        decreases writes@.len() - i,
    {
        proof {
            assert(writes@.skip(i as int)[0] == writes@[i as int]);
            assert(writes@.skip(i as int).skip(1) =~= writes@.skip(i + 1));
        }
        match writes[i] {
            KeyWrite::MainKey(k) => device.write_key(k),
            KeyWrite::OptionKey(k) => device.write_option_key(k),
        }
        i = i + 1;
    }
    proof {
        assert(writes@.skip(i as int) =~= Seq::<KeyWrite>::empty());
        assert(writes@.skip(0) =~= writes@);
        lemma_unlock_writes(s0);
    }
}

/// A flash programming session over the controller it owns.
pub struct Algorithm {
    device: FlashDevice,
    function: Function,
    transfer: TransferMode,
}

impl View for Algorithm {
    type V = FlashState;

    closed spec fn view(&self) -> FlashState {
        self.device@
    }
}

impl Algorithm {
    /// The operation the session was opened for.
    pub closed spec fn function_spec(&self) -> Function {
        self.function
    }

    /// The transfer path of the session.
    pub closed spec fn mode(&self) -> TransferMode {
        self.transfer
    }

    /// The array spans the whole flash.
    pub open spec fn wf(&self) -> bool {
        self@.array.len() == FLASH_SIZE
    }

    /// Opens a session for `function`: selects the internal clock, turns
    /// interrupts off, unlocks the controller unless the session only
    /// verifies, and sets up the bulk-transfer controller for chunked
    /// programming. The load address and clock rate the host passes are not
    /// needed.
    pub fn new(
        device: FlashDevice,
        load_address: u32,
        clock_hz: u32,
        function: Function,
        transfer: TransferMode,
    ) -> (r: Result<Algorithm, ErrorCode>)
        requires
            device.wf(),
        ensures
            r matches Ok(a) && a.wf() && a@ == session_spec(device@, function, transfer) && a.mode()
                == transfer && a.function_spec() == function,
    {
        let ghost s0 = device@;
        let mut device = device;
        device.select_clock(ClockSource::Hsi, 0);
        device.disable_interrupts();
        let ghost s1 = device@;
        assert(s1 == FlashState {
            clock: ClockSource::Hsi,
            clock_divider: 0,
            interrupts_enabled: false,
            interrupt_controller_enabled: false,
            ..s0
        });
        let plan = session_plan(function, transfer);
        if plan.unlock {
            unlock_device(&mut device);
        }
        let ghost s2 = device@;
        assert(s2 == if function != Function::Verify {
            unlock_spec(s1)
        } else {
            s1
        });
        if plan.init_dma {
            device.reset_dma();
        }
        let a = Algorithm { device, function, transfer };
        assert(a@ == session_spec(s0, function, transfer));
        Ok(a)
    }

    /// The operation the session was opened for.
    pub fn function(&self) -> (r: Function)
        ensures
            r == self.function_spec(),
    {
        self.function
    }

    /// The transfer path of the session.
    pub fn transfer_mode(&self) -> (r: TransferMode)
        ensures
            r == self.mode(),
    {
        self.transfer
    }

    /// The controller the session drives.
    pub fn device(&self) -> (r: &FlashDevice)
        ensures
            r@ == self@,
    {
        &self.device
    }

    /// Ends the session and hands the controller back.
    pub fn into_device(self) -> (r: FlashDevice)
        ensures
            r@ == self@,
    {
        self.device
    }

    /// Writes the unlock key pairs where the array or the option bytes are locked.
    pub fn unlock(&mut self)
        requires
            old(self).wf(),
        ensures
            final(self).wf(),
            final(self)@ == unlock_spec(old(self)@),
            final(self).mode() == old(self).mode(),
            final(self).function_spec() == old(self).function_spec(),
    {
        unlock_device(&mut self.device);
    }

    fn erase(&mut self, mode: EraseMode)
        requires
            old(self).wf(),
        ensures
            final(self).wf(),
            final(self).mode() == old(self).mode(),
            final(self).function_spec() == old(self).function_spec(),
            final(self)@ == (FlashState {
                array: final(self)@.array,
                cr: erase_cleared(old(self)@.cr),
                ..old(self)@
            }),
            final(self)@.array == if old(self)@.locked {
                old(self)@.array
            } else if mode == EraseMode::Mass {
                fill_range(old(self)@.array, 0, FLASH_SIZE as int, EMPTY_VALUE)
            } else if mode == EraseMode::Sector && FLASH_ADDRESS <= old(self)@.address
                && old(self)@.address - FLASH_ADDRESS < FLASH_SIZE {
                fill_range(
                    old(self)@.array,
                    ((old(self)@.address - FLASH_ADDRESS) / SECTOR_SIZE as int * SECTOR_SIZE) as int,
                    SECTOR_SIZE as int,
                    EMPTY_VALUE,
                )
            } else {
                old(self)@.array
            },
    {
        let cr = self.device.control();
        self.device.set_control(cr.with_erase_mode(mode));
        self.device.start();
        let cr2 = self.device.control();
        self.device.set_control(cr2.without_erase_mode());
    }

    /// Erases the whole array.
    pub fn erase_all(&mut self) -> (r: Result<(), ErrorCode>)
        requires
            old(self).wf(),
        ensures
            r is Ok,
            final(self).wf(),
            final(self).mode() == old(self).mode(),
            final(self).function_spec() == old(self).function_spec(),
            final(self)@ == (FlashState {
                array: if old(self)@.locked {
                    old(self)@.array
                } else {
                    fill_range(old(self)@.array, 0, FLASH_SIZE as int, EMPTY_VALUE)
                },
                cr: erase_cleared(old(self)@.cr),
                ..old(self)@
            }),
    {
        self.erase(EraseMode::Mass);
        Ok(())
    }

    /// Erases the sector that begins at `address`.
    pub fn erase_sector(&mut self, address: u32) -> (r: Result<(), ErrorCode>)
        requires
            old(self).wf(),
        ensures
            final(self).wf(),
            final(self).mode() == old(self).mode(),
            final(self).function_spec() == old(self).function_spec(),
            !in_flash(address, 1) ==> fails_with(r, ERROR_OUT_OF_RANGE) && final(self)@ == old(self)@,
            in_flash(address, 1) && offset_of(address) % SECTOR_SIZE as int != 0 ==> fails_with(
                r,
                ERROR_MISALIGNED,
            ) && final(self)@ == old(self)@,
            in_flash(address, 1) && offset_of(address) % SECTOR_SIZE as int == 0 ==> r is Ok
                && final(self)@ == (FlashState {
                array: if old(self)@.locked {
                    old(self)@.array
                } else {
                    fill_range(old(self)@.array, offset_of(address), SECTOR_SIZE as int, EMPTY_VALUE)
                },
                cr: erase_cleared(old(self)@.cr),
                address,
                ..old(self)@
            }),
    {
        let target = sector_target(address)?;
        self.device.write_address(target);
        self.erase(EraseMode::Sector);
        Ok(())
    }

    fn program_chunked(&mut self, off: u32, data: &[u8])
        requires
            old(self).wf(),
            old(self)@.cr.pg,
            off as int + data@.len() <= FLASH_SIZE,
        ensures
            final(self).wf(),
            final(self).mode() == old(self).mode(),
            final(self).function_spec() == old(self).function_spec(),
            final(self)@ == (FlashState {
                array: program_effect(old(self)@, TransferMode::Chunked, off as int, data@),
                ..old(self)@
            }),
    {
        let ghost pre = self@;
        let len: usize = data.len();
        let words: u32 = (len / 4) as u32;
        let plan = plan_chunks(words);
        let ghost effective = pre.dma_ready && !pre.locked;
        let mut i: usize = 0;
        assert(data@.subrange(0, 0) =~= Seq::<u8>::empty());
        assert(write_range(pre.array, off as int, data@.subrange(0, 0)) =~= pre.array);
        while i < plan.len()
            invariant
                self.wf(),
                self.mode() == old(self).mode(),
                self.function_spec() == old(self).function_spec(),
                pre == old(self)@,
                pre.cr.pg,
                effective == (pre.dma_ready && !pre.locked),
                len == data@.len(),
                off as int + len <= FLASH_SIZE,
                words == len / 4,
                plan@.len() == chunk_count(words as nat),
                forall|k: int| 0 <= k < plan@.len() ==> plan@[k] == chunk_at(words as nat, k),
                i <= plan@.len(),
                self@ == (FlashState { array: self@.array, ..pre }),
                self@.array == if effective {
                    write_range(
                        pre.array,
                        off as int,
                        data@.subrange(0, 4 * vstd::math::min(i * MAX_TRANSFER_WORDS as int, words as int)),
                    )
                } else {
                    pre.array
                },
            decreases plan@.len() - i,
        {
            let c = plan[i];
            assert(c == chunk_at(words as nat, i as int));
            proof {
                if effective {
                    lemma_write_range_concat(
                        pre.array,
                        off as int,
                        data@,
                        4 * vstd::math::min(i * MAX_TRANSFER_WORDS as int, words as int),
                        4 * c.words,
                    );
                }
            }
            self.device.dma_transfer(data, off, c);
            i = i + 1;
        }
        assert(vstd::math::min(i * MAX_TRANSFER_WORDS as int, words as int) == words);
        let whole: usize = 4 * words as usize;
        proof {
            if effective {
                lemma_write_range_concat(pre.array, off as int, data@, whole as int, len - whole);
            }
            assert(data@.subrange(0, len as int) =~= data@);
        }
        self.device.store(off + whole as u32, data, whole, len - whole);
    }

    /// Programs `data` into the page that begins at `address`.
    pub fn program_page(&mut self, address: u32, data: &[u8]) -> (r: Result<(), ErrorCode>)
        requires
            old(self).wf(),
        ensures
            final(self).wf(),
            final(self).mode() == old(self).mode(),
            final(self).function_spec() == old(self).function_spec(),
            !in_flash(address, data@.len() as int) ==> fails_with(r, ERROR_OUT_OF_RANGE) && final(self)@
                == old(self)@,
            in_flash(address, data@.len() as int) && offset_of(address) % PAGE_SIZE as int != 0
                ==> fails_with(r, ERROR_MISALIGNED) && final(self)@ == old(self)@,
            in_flash(address, data@.len() as int) && offset_of(address) % PAGE_SIZE as int == 0
                ==> r is Ok && final(self)@ == (FlashState {
                array: program_effect(old(self)@, old(self).mode(), offset_of(address), data@),
                cr: program_cleared(old(self)@.cr),
                ..old(self)@
            }),
    {
        let len: usize = data.len();
        let off = page_target(address, len)?;
        let cr = self.device.control();
        self.device.set_control(ControlBits { pg: true, fastpg: true, ..cr });
        match self.transfer {
            TransferMode::Direct => {
                self.device.store(off, data, 0, len);
                assert(data@.subrange(0, len as int) =~= data@);
            },
            TransferMode::Chunked => {
                self.program_chunked(off, data);
            },
        }
        let cr2 = self.device.control();
        self.device.set_control(ControlBits { pg: false, fastpg: false, optpg: false, ..cr2 });
        Ok(())
    }

    /// Reads `len` bytes of flash from `address`, or `None` outside the array.
    pub fn read(&self, address: u32, len: u32) -> (r: Option<Vec<u8>>)
        requires
            self.wf(),
        ensures
            r is Some <==> in_flash(address, len as int),
            r matches Some(v) ==> v@ == self@.array.subrange(
                offset_of(address),
                offset_of(address) + len,
            ),
    {
        match region_offset(address, len as usize) {
            Ok(off) => Some(self.device.load(off, len)),
            Err(_) => None,
        }
    }

    /// Compares `size` bytes of flash from `address` with `data`. The result
    /// is always an error: its code is `address` plus the number of leading
    /// bytes that match, so the end of the range when everything matches.
    pub fn verify(&mut self, address: u32, size: u32, data: Option<&[u8]>) -> (r: Result<(), ErrorCode>)
        requires
            old(self).wf(),
            data is Some,
            size <= data->0@.len(),
        ensures
            *final(self) == *old(self),
            !in_flash(address, size as int) ==> fails_with(r, ERROR_OUT_OF_RANGE),
            in_flash(address, size as int) ==> r is Err && forall|k: int|
                is_match_len(
                    old(self)@.array.subrange(offset_of(address), offset_of(address) + size),
                    data->0@,
                    size as int,
                    k,
                ) ==> #[trigger] fails_with(r, (address + k) as u32),
    {
        let expected = data.unwrap();
        match self.read(address, size) {
            None => Err(ErrorCode::from_nonzero(ERROR_OUT_OF_RANGE)),
            Some(flash) => {
                let r = verify_outcome(address, flash.as_slice(), expected);
                assert forall|k: int|
                    is_match_len(flash@, expected@, size as int, k) implies #[trigger] fails_with(
                    r,
                    (address + k) as u32,
                ) by {
                    assert(address + k == r->Err_0.value());
                }
                r
            },
        }
    }

    /// Checks that `size` bytes of flash from `address` all equal `pattern`.
    pub fn blank_check(&mut self, address: u32, size: u32, pattern: u8) -> (r: Result<(), ErrorCode>)
        requires
            old(self).wf(),
        ensures
            *final(self) == *old(self),
            !in_flash(address, size as int) ==> fails_with(r, ERROR_OUT_OF_RANGE),
            in_flash(address, size as int) ==> (r is Ok <==> is_blank(
                old(self)@.array.subrange(offset_of(address), offset_of(address) + size),
                size as int,
                pattern,
            )),
            in_flash(address, size as int) && r is Err ==> fails_with(r, ERROR_FAILED),
    {
        match self.read(address, size) {
            None => Err(ErrorCode::from_nonzero(ERROR_OUT_OF_RANGE)),
            Some(flash) => blank_check_outcome(flash.as_slice(), pattern),
        }
    }
}

} // verus!
