//! Fixed byte offsets and lengths of the regions of a cartridge ROM image.
use vstd::prelude::*;

verus! {

/// Value of the `cart_timing` header field in a freshly created header.
pub const DEFAULT_CART_TIMING: u32 = 0x80371240;

/// Value of the `clock_rate` header field in a freshly created header.
pub const DEFAULT_CLOCK_RATE: u32 = 0x0000000f;

/// Length in bytes of the `name` field of the header.
pub const HEADER_NAME_LEN: usize = 20;

/// Offset of the header region.
pub const HEADER_START: usize = 0;

/// Length in bytes of the serialized header.
pub const HEADER_LEN: usize = 64;

/// One past the last byte of the header region.
pub const HEADER_END: usize = HEADER_START + HEADER_LEN;

/// Offset of the boot-code region, immediately after the header.
pub const BOOTCODE_START: usize = HEADER_LEN;

/// Length in bytes of the boot-code region.
pub const BOOTCODE_LEN: usize = 4096 - HEADER_LEN;

/// One past the last byte of the boot-code region.
pub const BOOTCODE_END: usize = BOOTCODE_START + BOOTCODE_LEN;

/// Offset of the load region, immediately after the boot code.
pub const LOAD_START: usize = HEADER_LEN + BOOTCODE_LEN;

/// Length in bytes of the checksummed part of the load region.
pub const LOAD_LEN: usize = 0x100000;

/// Smallest length of an image that covers header, boot code and the
/// checksummed part of the load region.
pub const ROM_LEN: usize = HEADER_LEN + BOOTCODE_LEN + LOAD_LEN;

} // verus!
