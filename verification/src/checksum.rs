//! The two-word boot checksum computed over a fixed 1 MiB window of the load
//! region. The mixing is bit-exact, order-sensitive, modulo-2^32 arithmetic;
//! the buffer must already be in native byte order.
use vstd::prelude::*;

use crate::endian::spec_u32_from_be_bytes;
use crate::layout::BOOTCODE_END;
use crate::layout::LOAD_LEN;

verus! {

/// Offset of the checksum window: the start of the load region.
pub const CHECKSUM_START: usize = BOOTCODE_END;

/// Length in bytes of the checksum window.
pub const CHECKSUM_LENGTH: usize = LOAD_LEN;

/// One past the last byte of the checksum window; the smallest buffer length
/// the checksum accepts.
pub const CHECKSUM_END: usize = CHECKSUM_START + CHECKSUM_LENGTH;

/// Seed of all six accumulators.
pub const CHECKSUM_START_VALUE: u32 = 0xf8ca4ddc;

/// Number of 32-bit words in the checksum window.
pub const CHECKSUM_WORDS: usize = CHECKSUM_LENGTH / 4;

/// Why a checksum could not be computed.
#[derive(Debug, Eq, PartialEq, Structural)]
pub enum ChecksumError {
    /// The buffer ends before the checksum window does.
    NotLongEnough,
    /// A read inside the already-length-checked window failed; a defensive
    /// outcome that a correct computation never produces.
    ErrorReadingBuffer,
}

/// The six 32-bit accumulators of the mixing loop.
pub struct ChecksumState {
    pub t1: u32,
    pub t2: u32,
    pub t3: u32,
    pub t4: u32,
    pub t5: u32,
    pub t6: u32,
}

/// `x` rotated left by `k` bits.
pub open spec fn spec_rotl32(x: u32, k: u32) -> u32
    recommends
        k < 32,
{
    if k == 0 {
        x
    } else {
        (x << k) | (x >> ((32 - k) as u32))
    }
}

/// The `j`-th big-endian 32-bit word of the checksum window of `s`.
pub open spec fn spec_window_word(s: Seq<u8>, j: int) -> u32
    recommends
        0 <= j < CHECKSUM_WORDS,
        s.len() >= CHECKSUM_END,
{
    spec_u32_from_be_bytes(
        s[CHECKSUM_START + 4 * j],
        s[CHECKSUM_START + 4 * j + 1],
        s[CHECKSUM_START + 4 * j + 2],
        s[CHECKSUM_START + 4 * j + 3],
    )
}

/// All six accumulators hold the seed.
pub open spec fn spec_initial_state() -> ChecksumState {
    ChecksumState {
        t1: CHECKSUM_START_VALUE,
        t2: CHECKSUM_START_VALUE,
        t3: CHECKSUM_START_VALUE,
        t4: CHECKSUM_START_VALUE,
        t5: CHECKSUM_START_VALUE,
        t6: CHECKSUM_START_VALUE,
    }
}

/// One step of the mixing loop on the word `c1`: a wrapping sum into `t6`
/// whose overflow, detected as the sum comparing below the old `t6`, bumps
/// `t4`; an xor into `t3`; a data-dependent rotation summed into `t5`; an
/// xor into `t2` picked by an unsigned comparison; and a wrapping sum of
/// `c1 ^ t5` into `t1`.
pub open spec fn spec_round(st: ChecksumState, c1: u32) -> ChecksumState {
    let k1 = st.t6.wrapping_add(c1);
    let t4 = if k1 < st.t6 {
        (st.t4 + 1) as u32
    } else {
        st.t4
    };
    let t6 = k1;
    let t3 = st.t3 ^ c1;
    let k2 = c1 & 0x1f;
    let rotated = spec_rotl32(c1, k2);
    let t5 = st.t5.wrapping_add(rotated);
    let t2 = if c1 < st.t2 {
        st.t2 ^ rotated
    } else {
        st.t2 ^ (t6 ^ c1)
    };
    let t1 = st.t1.wrapping_add(c1 ^ t5);
    ChecksumState { t1, t2, t3, t4, t5, t6 }
}

/// The accumulators after mixing the first `n` words of the window of `s`.
pub open spec fn spec_state_after(s: Seq<u8>, n: int) -> ChecksumState
    decreases n,
{
    if n <= 0 {
        spec_initial_state()
    } else {
        spec_round(spec_state_after(s, n - 1), spec_window_word(s, n - 1))
    }
}

/// The two checksum words of `s`: the accumulators after the whole window,
/// folded down by xor.
pub open spec fn spec_cart_checksum(s: Seq<u8>) -> (u32, u32)
    recommends
        s.len() >= CHECKSUM_END,
{
    let st = spec_state_after(s, CHECKSUM_WORDS as int);
    (st.t6 ^ st.t4 ^ st.t3, st.t5 ^ st.t2 ^ st.t1)
}

/// `x` rotated left by `k` bits.
fn rotl32(x: u32, k: u32) -> (r: u32)
    requires
        k < 32,
    ensures
        r == spec_rotl32(x, k),
{
    if k == 0 {
        x
    } else {
        (x << k) | (x >> (32 - k))
    }
}

/// Computes the two-word boot checksum of `buffer`, or `NotLongEnough` when
/// the buffer ends before the checksum window does. The defensive
/// `ErrorReadingBuffer` outcome is never produced: every read is inside the
/// already-checked window.
pub fn calculate_cart_checksum(buffer: &[u8]) -> (r: Result<(u32, u32), ChecksumError>)
    ensures
        buffer@.len() < CHECKSUM_END ==> r == Err::<(u32, u32), ChecksumError>(
            ChecksumError::NotLongEnough,
        ),
        buffer@.len() >= CHECKSUM_END ==> r == Ok::<(u32, u32), ChecksumError>(
            spec_cart_checksum(buffer@),
        ),
{
    if buffer.len() < CHECKSUM_END {
        return Err(ChecksumError::NotLongEnough);
    }

    let mut t1: u32 = CHECKSUM_START_VALUE;
    let mut t2: u32 = CHECKSUM_START_VALUE;
    let mut t3: u32 = CHECKSUM_START_VALUE;
    let mut t4: u32 = CHECKSUM_START_VALUE;
    let mut t5: u32 = CHECKSUM_START_VALUE;
    let mut t6: u32 = CHECKSUM_START_VALUE;

    for ii in 0..CHECKSUM_WORDS
        invariant
            buffer@.len() >= CHECKSUM_END,
            t4 <= CHECKSUM_START_VALUE + ii,
            (ChecksumState { t1, t2, t3, t4, t5, t6 }) == spec_state_after(buffer@, ii as int),
    {
        let base = CHECKSUM_START + 4 * ii;
        let c1: u32 = ((buffer[base] as u32) << 24) | ((buffer[base + 1] as u32) << 16) | ((
        buffer[base + 2] as u32) << 8) | (buffer[base + 3] as u32);
        assert(c1 == spec_window_word(buffer@, ii as int));

        let k1 = t6.wrapping_add(c1);
        if k1 < t6 {
            t4 = t4 + 1;
        }
        t6 = k1;
        t3 = t3 ^ c1;
        let k2 = c1 & 0x1f;
        assert(c1 & 0x1f < 32) by (bit_vector);
        let rotated = rotl32(c1, k2);
        t5 = t5.wrapping_add(rotated);
        if c1 < t2 {
            t2 = t2 ^ rotated;
        } else {
            t2 = t2 ^ (t6 ^ c1);
        }
        t1 = t1.wrapping_add(c1 ^ t5);

        assert((ChecksumState { t1, t2, t3, t4, t5, t6 }) == spec_state_after(
            buffer@,
            ii + 1 as int,
        ));
    }

    Ok((t6 ^ t4 ^ t3, t5 ^ t2 ^ t1))
}

} // verus!
