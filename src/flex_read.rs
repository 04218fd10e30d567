//! The flex-read port: command-driven diagnostic reads of the flash controller.
use vstd::prelude::*;

verus! {

/// Command byte of the capacity query.
pub const CAPACITY_COMMAND: u8 = 0x5A;

/// Address sent with the capacity query.
pub const CAPACITY_ADDRESS: u32 = 0x34;

/// Command byte of the unique-identifier query.
pub const UNIQUE_ID_COMMAND: u8 = 0x4B;

/// One flex-read command: what the control word and address register receive.
#[derive(Clone, Copy, Debug, PartialEq, Eq, Structural)]
pub struct FlexReadRequest {
    pub command: u8,
    pub has_address: bool,
    pub address: u32,
    pub data_bytes: u8,
    pub dummy_bytes: u8,
}

/// The control word of a flex read: bit 31 address present, bits 23..16 the
/// dummy-byte count, bits 15..8 the data-byte count, bits 7..0 the command.
pub open spec fn control_word_spec(command: u8, has_address: bool, data_bytes: u8, dummy_bytes: u8) -> u32 {
    ((if has_address { 1u32 } else { 0u32 }) << 31u32) | ((dummy_bytes as u32) << 16u32) | (
    (data_bytes as u32) << 8u32) | (command as u32)
}

/// Packs the fields of a flex read into its control word.
pub fn control_word(command: u8, has_address: bool, data_bytes: u8, dummy_bytes: u8) -> (r: u32)
    ensures
        r == control_word_spec(command, has_address, data_bytes, dummy_bytes),
        r & 0xff == command as u32,
        (r >> 8u32) & 0xff == data_bytes as u32,
        (r >> 16u32) & 0xff == dummy_bytes as u32,
        (r >> 24u32) & 0x7f == 0,
        (r >> 31u32) == (if has_address { 1u32 } else { 0u32 }),
{
    let a: u32 = if has_address { 1 } else { 0 };
    let c = command as u32;
    let d = data_bytes as u32;
    let m = dummy_bytes as u32;
    let r = (a << 31u32) | (m << 16u32) | (d << 8u32) | c;
    assert(r & 0xff == c && (r >> 8u32) & 0xff == d && (r >> 16u32) & 0xff == m && (r >> 24u32)
        & 0x7f == 0 && (r >> 31u32) == a) by (bit_vector)
        requires
            r == (a << 31u32) | (m << 16u32) | (d << 8u32) | c,
            a <= 1,
            c < 256,
            d < 256,
            m < 256,
    ;
    r
}

impl FlexReadRequest {
    /// The control word this request writes.
    pub fn control_word(&self) -> (r: u32)
        ensures
            r == control_word_spec(self.command, self.has_address, self.data_bytes, self.dummy_bytes),
    {
        control_word(self.command, self.has_address, self.data_bytes, self.dummy_bytes)
    }
}

/// The capacity query: command 0x5A at address 0x34, four data bytes, one dummy byte.
pub fn capacity_request() -> (r: FlexReadRequest)
    ensures
        r == (FlexReadRequest {
            command: CAPACITY_COMMAND,
            has_address: true,
            address: CAPACITY_ADDRESS,
            data_bytes: 4,
            dummy_bytes: 1,
        }),
{
    FlexReadRequest {
        command: CAPACITY_COMMAND,
        has_address: true,
        address: CAPACITY_ADDRESS,
        data_bytes: 4,
        dummy_bytes: 1,
    }
}

/// The unique-identifier sweep: command 0x4B without address or dummy bytes,
/// reading 4, 8, 12 and 16 data bytes in turn.
pub fn unique_id_requests() -> (r: Vec<FlexReadRequest>)
    ensures
        r@.len() == 4,
        forall|i: int|
            0 <= i < 4 ==> r@[i] == (FlexReadRequest {
                command: UNIQUE_ID_COMMAND,
                has_address: false,
                address: 0,
                data_bytes: (4 * (i + 1)) as u8,
                dummy_bytes: 0,
            }),
{
    let mut r: Vec<FlexReadRequest> = Vec::new();
    let mut n: u8 = 4;
    while n <= 16
        invariant
            4 <= n <= 20,
            n % 4 == 0,
            r@.len() == (n / 4 - 1) as int,
            forall|i: int|
                0 <= i < r@.len() ==> r@[i] == (FlexReadRequest {
                    command: UNIQUE_ID_COMMAND,
                    has_address: false,
                    address: 0,
                    data_bytes: (4 * (i + 1)) as u8,
                    dummy_bytes: 0,
                }),
        decreases 20 - n,
    {
        r.push(
            FlexReadRequest {
                command: UNIQUE_ID_COMMAND,
                has_address: false,
                address: 0,
                data_bytes: n,
                dummy_bytes: 0,
            },
        );
        n = n + 4;
    }
    r
}

/// Decodes the raw capacity answer, a bit count less one, into bytes.
pub fn capacity_bytes(raw_bits: u32) -> (r: u32)
    ensures
        r as int == (raw_bits as int + 1) / 8,
{
    let wide: u64 = raw_bits as u64 + 1;
    let r: u64 = wide >> 3u64;
    assert(r == wide / 8) by (bit_vector)
        requires
            r == wide >> 3u64,
    ;
    r as u32
}

} // verus!
