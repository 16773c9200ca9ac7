use cart_rom::calculate_cart_checksum;
use cart_rom::detect_swapping;
use cart_rom::swap_cart_to;
use cart_rom::ByteSwapping;
use cart_rom::ChecksumError;
use cart_rom::RomHeader;
use cart_rom::SwapError;
use cart_rom::CHECKSUM_END;
use cart_rom::HEADER_LEN;

#[test]
fn calculate_fails_with_slice_to_small() {
    let empty_array = [0u8; 0];
    assert_eq!(
        calculate_cart_checksum(&empty_array),
        Err(ChecksumError::NotLongEnough)
    );
}

#[test]
fn checksum_test_vectors() {
    let mut zero_vec: Vec<u8> = Vec::new();
    for _ in 0..CHECKSUM_END {
        zero_vec.push(0);
    }
    assert_eq!(
        calculate_cart_checksum(&zero_vec),
        Ok((0xF8CA4DDC, 0x303A4DDC))
    );

    for i in 0..CHECKSUM_END {
        zero_vec[i] = 0xFF;
    }
    assert_eq!(
        calculate_cart_checksum(&zero_vec),
        Ok((0xF8C24DDC, 0xC1544DDC))
    );

    for i in 0..CHECKSUM_END {
        zero_vec[i] = 0x41;
    }
    assert_eq!(
        calculate_cart_checksum(&zero_vec),
        Ok((0xFDCF52E1, 0xCD5A4DDC))
    );
}

#[test]
fn checksum_fails_one_byte_short() {
    let buffer = vec![0u8; CHECKSUM_END - 1];
    assert_eq!(
        calculate_cart_checksum(&buffer),
        Err(ChecksumError::NotLongEnough)
    );
}

#[test]
fn detect_short_buffer_unrecognized() {
    assert_eq!(detect_swapping(&[]), None);
    assert_eq!(detect_swapping(&[0x80, 0x37, 0x12]), None);
}

#[test]
fn detect_native_prefix() {
    let buffer = [0x80, 0x37, 0x12, 0x40, 0x00, 0x00];
    assert_eq!(detect_swapping(&buffer), Some(ByteSwapping::Native));
}

#[test]
fn detect_u16le_prefix() {
    let buffer = [0x37, 0x80, 0x40, 0x12];
    assert_eq!(detect_swapping(&buffer), Some(ByteSwapping::U16LittleEndian));
}

#[test]
fn detect_other_prefix_unrecognized() {
    let buffer = [0x12, 0x40, 0x80, 0x37];
    assert_eq!(detect_swapping(&buffer), None);
}

#[test]
fn byte_swapping_descriptions() {
    assert_eq!(ByteSwapping::Native.description(), "Native");
    assert_eq!(
        ByteSwapping::U16LittleEndian.description(),
        "U16 Little Endian"
    );
}

#[test]
fn swap_unknown_prefix_fails() {
    let mut buffer = vec![1u8, 2, 3, 4, 5, 6];
    let original = buffer.clone();
    let result = swap_cart_to(ByteSwapping::Native, &mut buffer);
    assert_eq!(result, Err(SwapError::UnknownOriginalSwapping));
    assert_eq!(
        result.unwrap_err().message(),
        "Unknown original byte swapping"
    );
    assert_eq!(buffer, original);
}

#[test]
fn swap_odd_length_fails() {
    let mut buffer = vec![0x80, 0x37, 0x12, 0x40, 0xaa];
    let original = buffer.clone();
    let result = swap_cart_to(ByteSwapping::U16LittleEndian, &mut buffer);
    assert_eq!(result, Err(SwapError::NotEvenLength));
    assert_eq!(
        result.unwrap_err().message(),
        "Not an even length for swapping"
    );
    assert_eq!(buffer, original);
}

#[test]
fn swap_same_target_is_noop() {
    let mut buffer = vec![0x80, 0x37, 0x12, 0x40, 0xaa, 0xbb];
    let original = buffer.clone();
    assert_eq!(swap_cart_to(ByteSwapping::Native, &mut buffer), Ok(()));
    assert_eq!(buffer, original);

    let mut swapped = vec![0x37, 0x80, 0x40, 0x12];
    let original_swapped = swapped.clone();
    assert_eq!(
        swap_cart_to(ByteSwapping::U16LittleEndian, &mut swapped),
        Ok(())
    );
    assert_eq!(swapped, original_swapped);
}

#[test]
fn swap_swaps_adjacent_pairs() {
    let mut buffer = vec![0x80, 0x37, 0x12, 0x40, 0xaa, 0xbb];
    assert_eq!(
        swap_cart_to(ByteSwapping::U16LittleEndian, &mut buffer),
        Ok(())
    );
    assert_eq!(buffer, vec![0x37, 0x80, 0x40, 0x12, 0xbb, 0xaa]);
}

#[test]
fn swap_round_trip_restores_buffer() {
    let mut buffer = vec![0x80, 0x37, 0x12, 0x40, 0x01, 0x02, 0x03, 0x04];
    let original = buffer.clone();
    assert_eq!(
        swap_cart_to(ByteSwapping::U16LittleEndian, &mut buffer),
        Ok(())
    );
    assert_ne!(buffer, original);
    assert_eq!(swap_cart_to(ByteSwapping::Native, &mut buffer), Ok(()));
    assert_eq!(buffer, original);
}

fn read_u32_be(bytes: &[u8], offset: usize) -> u32 {
    ((bytes[offset] as u32) << 24)
        | ((bytes[offset + 1] as u32) << 16)
        | ((bytes[offset + 2] as u32) << 8)
        | (bytes[offset + 3] as u32)
}

fn read_u16_be(bytes: &[u8], offset: usize) -> u16 {
    ((bytes[offset] as u16) << 8) | (bytes[offset + 1] as u16)
}

#[test]
fn header_default_serialize() {
    let header = RomHeader::new();
    let bytes = header.serialize();
    assert_eq!(bytes.len(), HEADER_LEN);
    assert_eq!(bytes.len(), 64);
    assert_eq!(read_u32_be(&bytes, 0), 0x80371240);
    assert_eq!(read_u32_be(&bytes, 4), 0x0000000F);
    for offset in [8, 12, 16, 20, 24, 28, 52, 56] {
        assert_eq!(read_u32_be(&bytes, offset), 0);
    }
    for i in 32..52 {
        assert_eq!(bytes[i], 0);
    }
    assert_eq!(read_u16_be(&bytes, 60), 0);
    assert_eq!(read_u16_be(&bytes, 62), 0);
}

#[test]
fn header_serialize_field_order() {
    let mut header = RomHeader::new();
    header.load_addr = 0x11223344;
    header.release = 0x55667788;
    header.crc1 = 0xdeadbeef;
    header.crc2 = 0xcafebabe;
    header.rsvd_18 = 1;
    header.rsvd_1c = 2;
    header.name = *b"TWENTY BYTES OF NAME";
    header.rsvd_34 = 3;
    header.manuf_id = 0x4e;
    header.cart_id = 0x4647;
    header.country_code = 0x4500;

    let bytes = header.serialize();
    assert_eq!(bytes.len(), 64);
    assert_eq!(read_u32_be(&bytes, 8), 0x11223344);
    assert_eq!(read_u32_be(&bytes, 12), 0x55667788);
    assert_eq!(read_u32_be(&bytes, 16), 0xdeadbeef);
    assert_eq!(read_u32_be(&bytes, 20), 0xcafebabe);
    assert_eq!(read_u32_be(&bytes, 24), 1);
    assert_eq!(read_u32_be(&bytes, 28), 2);
    assert_eq!(&bytes[32..52], b"TWENTY BYTES OF NAME");
    assert_eq!(read_u32_be(&bytes, 52), 3);
    assert_eq!(read_u32_be(&bytes, 56), 0x4e);
    assert_eq!(read_u16_be(&bytes, 60), 0x4647);
    assert_eq!(read_u16_be(&bytes, 62), 0x4500);
}
