//! Model of the flash controller registers and the flash array they drive.
use vstd::prelude::*;

use crate::descriptor::{EMPTY_VALUE, FLASH_ADDRESS, FLASH_SIZE, SECTOR_SIZE};
use crate::rcc::ClockSource;
use crate::transfer::{TransferChunk, MAX_TRANSFER_WORDS};

verus! {

/// First key of the unlock sequence.
pub const FLASH_KEY1: u32 = 0x4567_0123;

/// Second key of the unlock sequence.
pub const FLASH_KEY2: u32 = 0xCDEF_89AB;

/// The mode bits of the flash control register that the algorithm drives.
#[derive(Clone, Copy, Debug, PartialEq, Eq, Structural)]
pub struct ControlBits {
    /// Page erase.
    pub per: bool,
    /// Mass erase.
    pub mer: bool,
    /// Sector (block) erase.
    pub ber: bool,
    /// Program.
    pub pg: bool,
    /// Fast program.
    pub fastpg: bool,
    /// Option-byte program.
    pub optpg: bool,
    /// Flex read.
    pub read: bool,
}

/// Which erase mode a start triggers.
#[derive(Clone, Copy, Debug, PartialEq, Eq, Structural)]
pub enum EraseMode {
    Page,
    Mass,
    Sector,
}

impl ControlBits {
    /// No mode selected.
    pub open spec fn is_idle(self) -> bool {
        !self.per && !self.mer && !self.ber && !self.pg && !self.fastpg && !self.optpg && !self.read
    }

    /// At most one of the three erase modes is selected.
    pub open spec fn erase_exclusive(self) -> bool {
        &&& !(self.per && self.mer)
        &&& !(self.per && self.ber)
        &&& !(self.mer && self.ber)
    }

    /// The control bits with no mode selected.
    pub fn idle() -> (r: ControlBits)
        ensures
            r.is_idle(),
    {
        ControlBits {
            per: false,
            mer: false,
            ber: false,
            pg: false,
            fastpg: false,
            optpg: false,
            read: false,
        }
    }

    /// These bits with the erase modes cleared and exactly `mode` set.
    pub fn with_erase_mode(self, mode: EraseMode) -> (r: ControlBits)
        ensures
            r.per == (mode == EraseMode::Page),
            r.mer == (mode == EraseMode::Mass),
            r.ber == (mode == EraseMode::Sector),
            r.pg == self.pg,
            r.fastpg == self.fastpg,
            r.optpg == self.optpg,
            r.read == self.read,
            r.erase_exclusive(),
    {
        ControlBits {
            per: matches!(mode, EraseMode::Page),
            mer: matches!(mode, EraseMode::Mass),
            ber: matches!(mode, EraseMode::Sector),
            ..self
        }
    }

    /// These bits with all three erase modes cleared.
    pub fn without_erase_mode(self) -> (r: ControlBits)
        ensures
            r == (ControlBits { per: false, mer: false, ber: false, ..self }),
    {
        ControlBits { per: false, mer: false, ber: false, ..self }
    }
}

/// What the model exposes of the controller.
pub ghost struct FlashState {
    pub locked: bool,
    pub options_locked: bool,
    pub key_armed: bool,
    pub option_key_armed: bool,
    pub cr: ControlBits,
    pub address: u32,
    pub array: Seq<u8>,
    pub clock: ClockSource,
    pub clock_divider: u32,
    pub interrupts_enabled: bool,
    pub interrupt_controller_enabled: bool,
    pub dma_ready: bool,
}

/// `arr` with `len` bytes from `off` set to `v`.
pub open spec fn fill_range(arr: Seq<u8>, off: int, len: int, v: u8) -> Seq<u8> {
    Seq::new(arr.len(), |i: int| if off <= i < off + len { v } else { arr[i] })
}

/// `arr` with `data` written from `off`.
pub open spec fn write_range(arr: Seq<u8>, off: int, data: Seq<u8>) -> Seq<u8> {
    Seq::new(arr.len(), |i: int| if off <= i < off + data.len() { data[i - off] } else { arr[i] })
}

/// The state after one write of `key` to a two-key unlock register: the
/// first key arms it, the second key right after clears the lock, anything
/// else disarms it.
pub open spec fn key_step(locked: bool, armed: bool, key: u32) -> (bool, bool) {
    if armed && key == FLASH_KEY2 {
        (false, false)
    } else if key == FLASH_KEY1 {
        (locked, true)
    } else {
        (locked, false)
    }
}

/// The flash controller and its array, as the algorithm sees them.
pub struct FlashDevice {
    locked: bool,
    options_locked: bool,
    key_armed: bool,
    option_key_armed: bool,
    cr: ControlBits,
    address: u32,
    array: Vec<u8>,
    clock: ClockSource,
    clock_divider: u32,
    interrupts_enabled: bool,
    interrupt_controller_enabled: bool,
    dma_ready: bool,
}

impl View for FlashDevice {
    type V = FlashState;

    closed spec fn view(&self) -> FlashState {
        FlashState {
            locked: self.locked,
            options_locked: self.options_locked,
            key_armed: self.key_armed,
            option_key_armed: self.option_key_armed,
            cr: self.cr,
            address: self.address,
            array: self.array@,
            clock: self.clock,
            clock_divider: self.clock_divider,
            interrupts_enabled: self.interrupts_enabled,
            interrupt_controller_enabled: self.interrupt_controller_enabled,
            dma_ready: self.dma_ready,
        }
    }
}

impl FlashDevice {
    /// The array spans the whole flash.
    pub open spec fn wf(&self) -> bool {
        self@.array.len() == FLASH_SIZE
    }

    /// A controller as it comes out of reset: locked, idle, interrupts on,
    /// bulk transfers not set up, running from `clock`, holding `contents`.
    pub fn power_on(clock: ClockSource, contents: Vec<u8>) -> (r: FlashDevice)
        requires
            contents@.len() == FLASH_SIZE,
        ensures
            r.wf(),
            r@ == (FlashState {
                locked: true,
                options_locked: true,
                key_armed: false,
                option_key_armed: false,
                cr: r@.cr,
                address: 0,
                array: contents@,
                clock,
                clock_divider: r@.clock_divider,
                interrupts_enabled: true,
                interrupt_controller_enabled: true,
                dma_ready: false,
            }),
            r@.cr.is_idle(),
    {
        FlashDevice {
            locked: true,
            options_locked: true,
            key_armed: false,
            option_key_armed: false,
            cr: ControlBits::idle(),
            address: 0,
            array: contents,
            clock,
            clock_divider: 1,
            interrupts_enabled: true,
            interrupt_controller_enabled: true,
            dma_ready: false,
        }
    }

    /// A controller out of reset whose array is erased.
    pub fn erased(clock: ClockSource) -> (r: FlashDevice)
        ensures
            r.wf(),
            r@.locked,
            r@.options_locked,
            r@.cr.is_idle(),
            r@.clock == clock,
            !r@.dma_ready,
            forall|i: int| 0 <= i < FLASH_SIZE ==> #[trigger] r@.array[i] == EMPTY_VALUE,
    {
        let contents: Vec<u8> = vec![EMPTY_VALUE; FLASH_SIZE as usize];
        FlashDevice::power_on(clock, contents)
    }

    /// The lock bit of the control register.
    pub fn lock_bit(&self) -> (r: bool)
        ensures
            r == self@.locked,
    {
        self.locked
    }

    /// The option-write-enable bit of the control register.
    pub fn option_write_enabled(&self) -> (r: bool)
        ensures
            r == !self@.options_locked,
    {
        !self.options_locked
    }

    /// Writes the key register of the main array.
    pub fn write_key(&mut self, key: u32)
        requires
            old(self).wf(),
        ensures
            final(self).wf(),
            (final(self)@.locked, final(self)@.key_armed) == key_step(old(self)@.locked, old(self)@.key_armed, key),
            final(self)@ == (FlashState {
                locked: final(self)@.locked,
                key_armed: final(self)@.key_armed,
                ..old(self)@
            }),
    {
        if self.key_armed && key == FLASH_KEY2 {
            self.locked = false;
            self.key_armed = false;
        } else {
            self.key_armed = key == FLASH_KEY1;
        }
    }

    /// Writes the key register of the option bytes.
    pub fn write_option_key(&mut self, key: u32)
        requires
            old(self).wf(),
        ensures
            final(self).wf(),
            (final(self)@.options_locked, final(self)@.option_key_armed) == key_step(
                old(self)@.options_locked,
                old(self)@.option_key_armed,
                key,
            ),
            final(self)@ == (FlashState {
                options_locked: final(self)@.options_locked,
                option_key_armed: final(self)@.option_key_armed,
                ..old(self)@
            }),
    {
        if self.option_key_armed && key == FLASH_KEY2 {
            self.options_locked = false;
            self.option_key_armed = false;
        } else {
            self.option_key_armed = key == FLASH_KEY1;
        }
    }

    /// Selects the system clock source and divider.
    pub fn select_clock(&mut self, source: ClockSource, divider: u32)
        requires
            old(self).wf(),
        ensures
            final(self).wf(),
            final(self)@ == (FlashState { clock: source, clock_divider: divider, ..old(self)@ }),
    {
        self.clock = source;
        self.clock_divider = divider;
    }

    /// Turns off the platform interrupt controller and the core's interrupt enables.
    pub fn disable_interrupts(&mut self)
        requires
            old(self).wf(),
        ensures
            final(self).wf(),
            final(self)@ == (FlashState {
                interrupts_enabled: false,
                interrupt_controller_enabled: false,
                ..old(self)@
            }),
    {
        self.interrupts_enabled = false;
        self.interrupt_controller_enabled = false;
    }

    /// Resets the bulk-transfer controller, enables it and clears its linked list.
    pub fn reset_dma(&mut self)
        requires
            old(self).wf(),
        ensures
            final(self).wf(),
            final(self)@ == (FlashState { dma_ready: true, ..old(self)@ }),
    {
        self.dma_ready = true;
    }

    /// Latches an address into the address register.
    pub fn write_address(&mut self, address: u32)
        requires
            old(self).wf(),
        ensures
            final(self).wf(),
            final(self)@ == (FlashState { address, ..old(self)@ }),
    {
        self.address = address;
    }

    /// The system clock source and divider.
    pub fn clock(&self) -> (r: (ClockSource, u32))
        ensures
            r == (self@.clock, self@.clock_divider),
    {
        (self.clock, self.clock_divider)
    }

    /// Whether the core or the platform interrupt controller may still take interrupts.
    pub fn interrupts_enabled(&self) -> (r: bool)
        ensures
            r == (self@.interrupts_enabled || self@.interrupt_controller_enabled),
    {
        self.interrupts_enabled || self.interrupt_controller_enabled
    }

    /// Whether the bulk-transfer controller is set up.
    pub fn dma_ready(&self) -> (r: bool)
        ensures
            r == self@.dma_ready,
    {
        self.dma_ready
    }

    /// The mode bits of the control register.
    pub fn control(&self) -> (r: ControlBits)
        ensures
            r == self@.cr,
    {
        self.cr
    }

    /// Writes the mode bits of the control register.
    pub fn set_control(&mut self, bits: ControlBits)
        requires
            old(self).wf(),
        ensures
            final(self).wf(),
            final(self)@ == (FlashState { cr: bits, ..old(self)@ }),
    {
        self.cr = bits;
    }

    /// Sets the start bit. An unlocked controller with mass erase selected
    /// erases the array; with sector erase selected it erases the sector that
    /// holds the latched address, if that address lies in the array.
    /// Otherwise nothing changes.
    pub fn start(&mut self)
        requires
            old(self).wf(),
            old(self)@.cr.erase_exclusive(),
        ensures
            final(self).wf(),
            final(self)@ == (FlashState { array: final(self)@.array, ..old(self)@ }),
            final(self)@.array == if old(self)@.locked {
                old(self)@.array
            } else if old(self)@.cr.mer {
                fill_range(old(self)@.array, 0, FLASH_SIZE as int, EMPTY_VALUE)
            } else if old(self)@.cr.ber && FLASH_ADDRESS <= old(self)@.address && old(self)@.address
                - FLASH_ADDRESS < FLASH_SIZE {
                fill_range(
                    old(self)@.array,
                    ((old(self)@.address - FLASH_ADDRESS) / SECTOR_SIZE as int * SECTOR_SIZE) as int,
                    SECTOR_SIZE as int,
                    EMPTY_VALUE,
                )
            } else {
                old(self)@.array
            },
    {
        if !self.locked {
            if self.cr.mer {
                self.fill(0, FLASH_SIZE, EMPTY_VALUE);
            } else if self.cr.ber && FLASH_ADDRESS <= self.address && self.address - FLASH_ADDRESS
                < FLASH_SIZE {
                let first = (self.address - FLASH_ADDRESS) / SECTOR_SIZE * SECTOR_SIZE;
                self.fill(first, SECTOR_SIZE, EMPTY_VALUE);
            }
        }
    }

    fn fill(&mut self, off: u32, len: u32, v: u8)
        requires
            old(self).wf(),
            off as int + len as int <= FLASH_SIZE,
        ensures
            final(self).wf(),
            final(self)@ == (FlashState {
                array: fill_range(old(self)@.array, off as int, len as int, v),
                ..old(self)@
            }),
    {
        let mut j: u32 = 0;
        assert(fill_range(old(self)@.array, off as int, 0, v) =~= old(self)@.array);
        while j < len
            invariant
                self.wf(),
                off as int + len as int <= FLASH_SIZE,
                j <= len,
                self@ == (FlashState { array: fill_range(old(self)@.array, off as int, j as int, v), ..old(self)@ }),
            decreases len - j,
        {
            self.array.set((off + j) as usize, v);
            j = j + 1;
            assert(self@.array =~= fill_range(old(self)@.array, off as int, j as int, v));
        }
    }

    /// Writes `len` bytes of `src` from `from` into the array at offset `off`
    /// through the memory bus; the array takes them only while programming
    /// is selected on an unlocked controller.
    pub fn store(&mut self, off: u32, src: &[u8], from: usize, len: usize)
        requires
            old(self).wf(),
            off as int + len as int <= FLASH_SIZE,
            from as int + len as int <= src@.len(),
        ensures
            final(self).wf(),
            final(self)@ == (FlashState { array: final(self)@.array, ..old(self)@ }),
            final(self)@.array == if old(self)@.cr.pg && !old(self)@.locked {
                write_range(old(self)@.array, off as int, src@.subrange(from as int, from + len))
            } else {
                old(self)@.array
            },
    {
        if self.cr.pg && !self.locked {
            let ghost data = src@.subrange(from as int, from + len);
            let n: usize = src.len();
            let mut j: usize = 0;
            assert(write_range(old(self)@.array, off as int, data.subrange(0, 0)) =~= old(self)@.array);
            while j < len
                invariant
                    self.wf(),
                    off as int + len as int <= FLASH_SIZE,
                    from as int + len as int <= src@.len(),
                    n == src@.len(),
                    data == src@.subrange(from as int, from + len),
                    j <= len,
                    self@ == (FlashState {
                        array: write_range(old(self)@.array, off as int, data.subrange(0, j as int)),
                        ..old(self)@
                    }),
                decreases len - j,
            {
                self.array.set(off as usize + j, src[from + j]);
                j = j + 1;
                assert(self@.array =~= write_range(old(self)@.array, off as int, data.subrange(0, j as int)));
            }
            assert(data.subrange(0, len as int) =~= data);
        }
    }

    /// Runs one bulk transfer of `chunk` from `src` to the array at offset
    /// `dst + chunk.offset`; nothing moves unless the transfer controller was
    /// set up.
    pub fn dma_transfer(&mut self, src: &[u8], dst: u32, chunk: TransferChunk)
        requires
            old(self).wf(),
            chunk.words <= MAX_TRANSFER_WORDS,
            chunk.offset as int + 4 * chunk.words <= src@.len(),
            dst as int + chunk.offset as int + 4 * chunk.words <= FLASH_SIZE,
        ensures
            final(self).wf(),
            final(self)@ == (FlashState { array: final(self)@.array, ..old(self)@ }),
            final(self)@.array == if old(self)@.dma_ready && old(self)@.cr.pg && !old(self)@.locked {
                write_range(
                    old(self)@.array,
                    dst + chunk.offset,
                    src@.subrange(chunk.offset as int, chunk.offset + 4 * chunk.words),
                )
            } else {
                old(self)@.array
            },
    {
        if self.dma_ready {
            self.store(dst + chunk.offset, src, chunk.offset as usize, 4 * chunk.words as usize);
        }
    }

    /// Reads `len` bytes of the array from offset `off`.
    pub fn load(&self, off: u32, len: u32) -> (r: Vec<u8>)
        requires
            self.wf(),
            off as int + len as int <= FLASH_SIZE,
        ensures
            r@ == self@.array.subrange(off as int, off + len),
    {
        let mut r: Vec<u8> = Vec::new();
        let mut j: u32 = 0;
        while j < len
            invariant
                self.wf(),
                off as int + len as int <= FLASH_SIZE,
                j <= len,
                r@ == self@.array.subrange(off as int, off + j),
            decreases len - j,
        {
            r.push(self.array[(off + j) as usize]);
            j = j + 1;
            assert(r@ =~= self@.array.subrange(off as int, off + j));
        }
        r
    }
}

} // verus!
