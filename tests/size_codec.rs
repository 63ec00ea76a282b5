use neshdr::size::{
    decode_ram_size, decode_rom_size, encode_ram_size, encode_rom_size, parse_size_as_byte,
};
use neshdr::SizeError;

#[test]
fn parses_plain_and_suffixed_literals() {
    assert_eq!(parse_size_as_byte("12"), Ok(12));
    assert_eq!(parse_size_as_byte("0"), Ok(0));
    assert_eq!(parse_size_as_byte("16K"), Ok(16384));
    assert_eq!(parse_size_as_byte("2M"), Ok(2097152));
    assert_eq!(parse_size_as_byte("18446744073709551615"), Ok(u64::MAX));
}

#[test]
fn rejects_malformed_literals() {
    assert_eq!(parse_size_as_byte(""), Err(SizeError::InvalidLiteral));
    assert_eq!(parse_size_as_byte("K"), Err(SizeError::InvalidLiteral));
    assert_eq!(parse_size_as_byte("12X"), Err(SizeError::InvalidLiteral));
    assert_eq!(parse_size_as_byte("+5"), Err(SizeError::InvalidLiteral));
    assert_eq!(parse_size_as_byte("5KK"), Err(SizeError::InvalidLiteral));
    assert_eq!(parse_size_as_byte("1k"), Err(SizeError::InvalidLiteral));
    assert_eq!(parse_size_as_byte("\u{ff11}K"), Err(SizeError::InvalidLiteral));
    assert_eq!(parse_size_as_byte("18446744073709551616"), Err(SizeError::InvalidLiteral));
}

#[test]
fn suffix_overflow_is_reported() {
    assert_eq!(parse_size_as_byte("18014398509481984K"), Err(SizeError::Overflow));
    assert_eq!(parse_size_as_byte("18014398509481983K"), Ok(18014398509481983 * 1024));
    assert_eq!(parse_size_as_byte("17592186044416M"), Err(SizeError::Overflow));
}

#[test]
fn rom_size_linear_boundary() {
    // sixteen PRG units of 16 KiB
    assert_eq!(decode_rom_size("262144", 16), Ok((16, 0)));
    assert_eq!(decode_rom_size("16K", 16), Ok((1, 0)));
    // 0xEFF units still fit the linear form
    assert_eq!(decode_rom_size(&(0xEFFu64 * 16384).to_string(), 16), Ok((0xFF, 0xE)));
    // 0xF00 units do not, and 2^22 * 15 has no exponent form either
    assert_eq!(
        decode_rom_size(&(0xF00u64 * 16384).to_string(), 16),
        Err(SizeError::InvalidRomSize(62914560))
    );
    // 0x1000 units fall back to the exponent form: 2^26
    assert_eq!(decode_rom_size(&(0x1000u64 * 16384).to_string(), 16), Ok((104, 0xF)));
}

#[test]
fn rom_size_exponent_form() {
    assert_eq!(decode_rom_size("3072", 16), Ok((41, 0xF)));
    assert_eq!(decode_rom_size("3K", 8), Ok((41, 0xF)));
    assert_eq!(encode_rom_size(41, 0xF, 16), Ok("3072".to_string()));
    assert_eq!(decode_rom_size("0", 16), Ok((0, 0)));
    assert_eq!(decode_rom_size("1", 16), Ok((0, 0xF)));
    assert_eq!(encode_rom_size(0, 0xF, 16), Ok("1".to_string()));
    assert_eq!(decode_rom_size("9", 16), Err(SizeError::InvalidRomSize(9)));
}

#[test]
fn rom_size_renders_largest_exact_unit() {
    assert_eq!(encode_rom_size(1, 0, 16), Ok("16K".to_string()));
    assert_eq!(encode_rom_size(64, 0, 16), Ok("1M".to_string()));
    assert_eq!(encode_rom_size(128, 0, 8), Ok("1M".to_string()));
    assert_eq!(encode_rom_size(0, 0, 8), Ok("0M".to_string()));
    assert_eq!(encode_rom_size(0xFF, 0xE, 16), Ok("61424K".to_string()));
}

#[test]
fn rom_size_exponent_limit() {
    assert_eq!(encode_rom_size(240, 0xF, 16), Ok("1152921504606846976".to_string()));
    assert_eq!(encode_rom_size(243, 0xF, 16), Ok("8070450532247928832".to_string()));
    assert_eq!(encode_rom_size(244, 0xF, 16), Err(SizeError::TooLarge(61)));
    assert_eq!(encode_rom_size(255, 0xF, 8), Err(SizeError::TooLarge(63)));
}

#[test]
fn ram_size_exactness() {
    assert_eq!(decode_ram_size("0"), Ok(0));
    assert_eq!(decode_ram_size("0K"), Ok(0));
    assert_eq!(decode_ram_size("128"), Ok(1));
    assert_eq!(decode_ram_size("1K"), Ok(4));
    assert_eq!(decode_ram_size("2M"), Ok(15));
    assert_eq!(decode_ram_size("64"), Err(SizeError::InvalidRamSize(64)));
    assert_eq!(decode_ram_size("100"), Err(SizeError::InvalidRamSize(100)));
    assert_eq!(decode_ram_size("4M"), Err(SizeError::InvalidRamSize(4194304)));
    assert_eq!(encode_ram_size(0), "0K");
    assert_eq!(encode_ram_size(1), "128");
    assert_eq!(encode_ram_size(3), "512");
    assert_eq!(encode_ram_size(4), "1K");
    assert_eq!(encode_ram_size(15), "2048K");
}
