use emu_ram::endian::decode_value;
use emu_ram::{genesis, ps1, wii, Endianness, Error, Width};

#[test]
fn genesis_gap_is_out_of_range() {
    // The hardware address-space gap (0xFFFF, 0xFF0000] is rejected.
    assert_eq!(genesis::translate(0x10000, Width::W16), Err(Error::OutOfRange));
    assert_eq!(genesis::translate(0x800000, Width::W16), Err(Error::OutOfRange));
    assert_eq!(genesis::translate(0xFF0000, Width::W16), Err(Error::OutOfRange));
    // Both sides of the gap are valid.
    assert_eq!(genesis::translate(0xFFFF, Width::W16), Ok(0xFFFF));
    assert_eq!(genesis::translate(0xFF0001, Width::W16), Ok(0xFF0001));
    assert_eq!(genesis::translate(0xFFFFFF, Width::W16), Ok(0xFFFFFF));
    // Above the upper bank is rejected too.
    assert_eq!(genesis::translate(0x1000000, Width::W16), Err(Error::OutOfRange));
    assert_eq!(genesis::translate(u32::MAX, Width::W16), Err(Error::OutOfRange));
}

#[test]
fn genesis_byte_reads_swap_host_addresses() {
    // Offsets 0 and 1 target each other's host offset for single-byte
    // reads.
    assert_eq!(genesis::translate(0, Width::W8), Ok(1));
    assert_eq!(genesis::translate(1, Width::W8), Ok(0));
    assert_eq!(genesis::translate(0x1234, Width::W8), Ok(0x1235));
    assert_eq!(genesis::translate(0x1235, Width::W8), Ok(0x1234));
}

#[test]
fn genesis_wide_reads_do_not_flip() {
    assert_eq!(genesis::translate(0, Width::W16), Ok(0));
    assert_eq!(genesis::translate(0, Width::W32), Ok(0));
    assert_eq!(genesis::translate(0x1234, Width::W32), Ok(0x1234));
}

#[test]
fn ps1_mirrored_offsets_translate_identically() {
    // A raw offset and its KSEG-style alias address the identical host
    // offset.
    assert_eq!(ps1::translate(0x1234), Ok(0x1234));
    assert_eq!(ps1::translate(0x80001234), Ok(0x1234));
    assert_eq!(ps1::translate(0), Ok(0));
    assert_eq!(ps1::translate(0x80000000), Ok(0));
    assert_eq!(ps1::translate(0x1FFFFF), Ok(0x1FFFFF));
    assert_eq!(ps1::translate(0x801FFFFF), Ok(0x1FFFFF));
}

#[test]
fn ps1_rejects_outside_both_windows() {
    assert_eq!(ps1::translate(0x200000), Err(Error::OutOfRange));
    assert_eq!(ps1::translate(0x7FFFFFFF), Err(Error::OutOfRange));
    assert_eq!(ps1::translate(0x80200000), Err(Error::OutOfRange));
    assert_eq!(ps1::translate(u32::MAX), Err(Error::OutOfRange));
}

#[test]
fn wii_mem1_mirrored_addresses_translate_identically() {
    assert_eq!(wii::translate_mem_1(0x1000), Ok(0x1000));
    assert_eq!(wii::translate_mem_1(0x80001000), Ok(0x1000));
    assert_eq!(wii::translate_mem_1(0), Ok(0));
    assert_eq!(wii::translate_mem_1(0x80000000), Ok(0));
}

#[test]
fn wii_mem1_boundaries() {
    // 0x817FFFFF is the last valid MEM1 address; 0x81800000 is rejected.
    assert_eq!(wii::translate_mem_1(0x017FFFFF), Ok(0x017FFFFF));
    assert_eq!(wii::translate_mem_1(0x817FFFFF), Ok(0x017FFFFF));
    assert_eq!(wii::translate_mem_1(0x81800000), Err(Error::OutOfRange));
    assert_eq!(wii::translate_mem_1(0x01800000), Err(Error::OutOfRange));
    assert_eq!(wii::translate_mem_1(0x90000000), Err(Error::OutOfRange));
}

#[test]
fn wii_mem2_boundaries() {
    // 0x90000000 maps to MEM2 offset 0.
    assert_eq!(wii::translate_mem_2(0x90000000), Ok(0));
    assert_eq!(wii::translate_mem_2(0x93FFFFFF), Ok(0x03FFFFFF));
    assert_eq!(wii::translate_mem_2(0x94000000), Err(Error::OutOfRange));
    assert_eq!(wii::translate_mem_2(0x8FFFFFFF), Err(Error::OutOfRange));
    assert_eq!(wii::translate_mem_2(0), Err(Error::OutOfRange));
}

#[test]
fn decode_little_endian_values() {
    assert_eq!(decode_value(&vec![0x12], Endianness::Little), 0x12);
    assert_eq!(decode_value(&vec![0x12, 0x34], Endianness::Little), 0x3412);
    assert_eq!(
        decode_value(&vec![0x12, 0x34, 0x56, 0x78], Endianness::Little),
        0x78563412
    );
    assert_eq!(
        decode_value(
            &vec![0x01, 0x02, 0x03, 0x04, 0x05, 0x06, 0x07, 0x08],
            Endianness::Little
        ),
        0x0807060504030201
    );
}

#[test]
fn decode_big_endian_values() {
    assert_eq!(decode_value(&vec![0x12], Endianness::Big), 0x12);
    assert_eq!(decode_value(&vec![0x12, 0x34], Endianness::Big), 0x1234);
    assert_eq!(
        decode_value(&vec![0x12, 0x34, 0x56, 0x78], Endianness::Big),
        0x12345678
    );
    assert_eq!(
        decode_value(
            &vec![0x01, 0x02, 0x03, 0x04, 0x05, 0x06, 0x07, 0x08],
            Endianness::Big
        ),
        0x0102030405060708
    );
}

#[test]
fn width_byte_counts() {
    assert_eq!(Width::W8.len(), 1);
    assert_eq!(Width::W16.len(), 2);
    assert_eq!(Width::W32.len(), 4);
}
