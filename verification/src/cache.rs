//! Cache maintenance arithmetic: set/way operands and the lines a range
//! operation covers.
use vstd::prelude::*;

pub mod bus_address_bits;
pub mod cpu_address_bits;

verus! {

/// Shift of the cache level in a set/way operand.
pub const SETWAY_LEVEL_SHIFT: usize = 1;

/// Smallest data cache line length, in bytes.
pub const DATA_CACHE_LINE_LENGTH_MIN: usize = 64;

/// Number of sets of the L1 data cache.
pub const L1_DATA_CACHE_SETS: usize = 256;

/// Number of ways of the L1 data cache.
pub const L1_DATA_CACHE_WAYS: usize = 2;

/// Shift of the way in an L1 set/way operand.
pub const L1_SETWAY_WAY_SHIFT: usize = 31;

/// Shift of the set in an L1 set/way operand.
pub const L1_SETWAY_SET_SHIFT: usize = 6;

/// Number of sets of the L2 cache.
pub const L2_CACHE_SETS: usize = 1024;

/// Number of ways of the L2 cache.
pub const L2_CACHE_WAYS: usize = 16;

/// Shift of the way in an L2 set/way operand.
pub const L2_SETWAY_WAY_SHIFT: usize = 28;

/// Shift of the set in an L2 set/way operand.
pub const L2_SETWAY_SET_SHIFT: usize = 6;

/// The set/way operand of a data cache maintenance instruction for the L1
/// data cache (level 0).
pub fn l1_set_way_level(set: u64, way: u64) -> (r: u64)
    requires
        set < L1_DATA_CACHE_SETS,
        way < L1_DATA_CACHE_WAYS,
    ensures
        r == way * 0x8000_0000 + set * 64,
{
    let r = (way << 31u64) | (set << 6u64) | (0u64 << 1u64);
    assert(r == way * 0x8000_0000 + set * 64) by (bit_vector)
        requires
            r == (way << 31u64) | (set << 6u64) | (0u64 << 1u64),
            set < 256,
            way < 2,
    ;
    r
}

/// The set/way operand of a cache maintenance instruction for the L2 cache
/// (level 1).
pub fn l2_set_way_level(set: u64, way: u64) -> (r: u64)
    requires
        set < L2_CACHE_SETS,
        way < L2_CACHE_WAYS,
    ensures
        r == way * 0x1000_0000 + set * 64 + 2,
{
    let r = (way << 28u64) | (set << 6u64) | (1u64 << 1u64);
    assert(r == way * 0x1000_0000 + set * 64 + 2) by (bit_vector)
        requires
            r == (way << 28u64) | (set << 6u64) | (1u64 << 1u64),
            set < 1024,
            way < 16,
    ;
    r
}

/// Number of lines a range operation over `length` bytes touches: it steps
/// one minimum line length at a time over `length` plus one line, and also
/// touches the line where it stops.
pub fn range_line_count(length: usize) -> (r: usize)
    requires
        length + DATA_CACHE_LINE_LENGTH_MIN <= usize::MAX,
    ensures
        r == (length + DATA_CACHE_LINE_LENGTH_MIN) / (DATA_CACHE_LINE_LENGTH_MIN as int) + 1,
{
    let mut remaining = length + DATA_CACHE_LINE_LENGTH_MIN;
    let ghost total = remaining;
    let mut count: usize = 0;
    loop
        invariant
            remaining <= total,
            total == length + 64,
            (total - remaining) % 64 == 0,
            count == (total - remaining) / 64,
            total <= usize::MAX,
        decreases remaining,
    {
        count = count + 1;
        if remaining < DATA_CACHE_LINE_LENGTH_MIN {
            assert(total / 64 == (total - remaining) / 64) by (nonlinear_arith)
                requires
                    (total - remaining) % 64 == 0,
                    0 <= remaining < 64,
                    remaining <= total,
            ;
            return count;
        }
        remaining -= DATA_CACHE_LINE_LENGTH_MIN;
    }
}

/// The address of line `k` of a range operation that starts at `address`.
pub fn range_line_address(address: usize, k: usize) -> (r: usize)
    requires
        address + k * DATA_CACHE_LINE_LENGTH_MIN <= usize::MAX,
    ensures
        r == address + k * DATA_CACHE_LINE_LENGTH_MIN,
{
    address + k * DATA_CACHE_LINE_LENGTH_MIN
}

} // verus!
