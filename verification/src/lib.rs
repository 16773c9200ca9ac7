//! Manipulation of fixed-layout cartridge ROM images: the 64-byte header and
//! its serialization, detection of and conversion between the two on-disk
//! byte orderings, and the two-word boot checksum that the console checks
//! before running an image.
pub mod checksum;
pub mod endian;
pub mod header;
pub mod layout;
pub mod swap;

pub use checksum::CHECKSUM_END;
pub use checksum::ChecksumError;
pub use checksum::calculate_cart_checksum;
pub use header::RomHeader;
pub use layout::BOOTCODE_END;
pub use layout::BOOTCODE_LEN;
pub use layout::BOOTCODE_START;
pub use layout::DEFAULT_CART_TIMING;
pub use layout::DEFAULT_CLOCK_RATE;
pub use layout::HEADER_END;
pub use layout::HEADER_LEN;
pub use layout::HEADER_NAME_LEN;
pub use layout::HEADER_START;
pub use layout::LOAD_LEN;
pub use layout::LOAD_START;
pub use layout::ROM_LEN;
pub use swap::ByteSwapping;
pub use swap::SwapError;
pub use swap::detect_swapping;
pub use swap::swap_cart_to;
