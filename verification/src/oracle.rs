//! Reading a settlement price out of a raw oracle account image.
//!
//! The oracle collaborator hands the host an opaque byte buffer; the price
//! mantissa sits at bytes 16..24 as a little-endian signed 64-bit value and
//! the exponent at bytes 24..28 as a little-endian signed 32-bit value.  A
//! buffer shorter than 32 bytes, or a zero mantissa, is unusable and sends
//! the epoch to its `Invalid` terminal state rather than failing the call.

use vstd::prelude::*;

verus! {

/// The little-endian unsigned value of the 8 bytes at `off`.
pub open spec fn le_u64_at(data: Seq<u8>, off: int) -> int
    recommends
        0 <= off,
        off + 8 <= data.len(),
{
    data[off] + data[off + 1] * 0x100 + data[off + 2] * 0x10000 + data[off + 3] * 0x1000000
        + data[off + 4] * 0x100000000 + data[off + 5] * 0x10000000000
        + data[off + 6] * 0x1000000000000 + data[off + 7] * 0x100000000000000
}

/// The little-endian unsigned value of the 4 bytes at `off`.
pub open spec fn le_u32_at(data: Seq<u8>, off: int) -> int
    recommends
        0 <= off,
        off + 4 <= data.len(),
{
    data[off] + data[off + 1] * 0x100 + data[off + 2] * 0x10000 + data[off + 3] * 0x1000000
}

/// The signed value whose 64-bit two's-complement image is `u`.
pub open spec fn as_i64_val(u: int) -> int
    recommends
        0 <= u < 0x10000000000000000,
{
    if u < 0x8000000000000000 {
        u
    } else {
        u - 0x10000000000000000
    }
}

/// The signed value whose 32-bit two's-complement image is `u`.
pub open spec fn as_i32_val(u: int) -> int
    recommends
        0 <= u < 0x100000000,
{
    if u < 0x80000000 {
        u
    } else {
        u - 0x100000000
    }
}

/// The settlement price mantissa held in an oracle image.
pub open spec fn spec_settle_price(data: Seq<u8>) -> int
    recommends
        data.len() >= 24,
{
    as_i64_val(le_u64_at(data, 16))
}

/// The settlement price exponent held in an oracle image.
pub open spec fn spec_settle_expo(data: Seq<u8>) -> int
    recommends
        data.len() >= 28,
{
    as_i32_val(le_u32_at(data, 24))
}

/// Whether an oracle image can settle an epoch: long enough to hold a
/// reading, with a non-zero price.
pub open spec fn oracle_usable(data: Seq<u8>) -> bool {
    data.len() >= 32 && spec_settle_price(data) != 0
}

/// Reads the little-endian signed 64-bit value at `off`.
pub fn read_i64_le(data: &Vec<u8>, off: usize) -> (v: i64)
    requires
        off + 8 <= data@.len(),
    ensures
        v == as_i64_val(le_u64_at(data@, off as int)),
{
    let n = data.len();
    let b0 = data[off] as u64;
    let b1 = data[off + 1] as u64;
    let b2 = data[off + 2] as u64;
    let b3 = data[off + 3] as u64;
    let b4 = data[off + 4] as u64;
    let b5 = data[off + 5] as u64;
    let b6 = data[off + 6] as u64;
    let b7 = data[off + 7] as u64;
    let u: u64 = b0 + b1 * 0x100 + b2 * 0x10000 + b3 * 0x1000000 + b4 * 0x100000000
        + b5 * 0x10000000000 + b6 * 0x1000000000000 + b7 * 0x100000000000000;
    if u < 0x8000000000000000 {
        u as i64
    } else {
        -((u64::MAX - u) as i64) - 1
    }
}

/// Reads the little-endian signed 32-bit value at `off`.
pub fn read_i32_le(data: &Vec<u8>, off: usize) -> (v: i32)
    requires
        off + 4 <= data@.len(),
    ensures
        v == as_i32_val(le_u32_at(data@, off as int)),
{
    let n = data.len();
    let b0 = data[off] as u32;
    let b1 = data[off + 1] as u32;
    let b2 = data[off + 2] as u32;
    let b3 = data[off + 3] as u32;
    let u: u32 = b0 + b1 * 0x100 + b2 * 0x10000 + b3 * 0x1000000;
    if u < 0x80000000 {
        u as i32
    } else {
        -((u32::MAX - u) as i32) - 1
    }
}

/// Extracts the settlement reading from an oracle image, or `None` where
/// the image is too short to hold one.
pub fn read_price(data: &Vec<u8>) -> (r: Option<(i64, i32)>)
    ensures
        (match r {
            Some(pe) => data@.len() >= 32 && pe.0 == spec_settle_price(data@)
                && pe.1 == spec_settle_expo(data@),
            None => data@.len() < 32,
        }),
{
    if data.len() < 32 {
        None
    } else {
        let price = read_i64_le(data, 16);
        let expo = read_i32_le(data, 24);
        Some((price, expo))
    }
}

} // verus!
