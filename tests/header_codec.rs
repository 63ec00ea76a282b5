use neshdr::console::Console;
use neshdr::mirroring::Mirroring;
use neshdr::timing::Timing;
use neshdr::vs_system::{VsSystemHardware, VsSystemPPU};
use neshdr::{Decoder, Encoder, Header, HeaderError, SizeError, SizeField, VariantField};

fn sample() -> Header {
    Header {
        mapper: 0x123,
        submapper: Some(5),
        mirroring: Some(Mirroring::Horizontal),
        battery: Some(true),
        trainer: Some(false),
        console: Some(Console::Nes),
        timing: Some(Timing::RP2C07),
        vs_system_ppu: None,
        vs_system_hardware: None,
        prg_rom_size: "256K".to_string(),
        prg_ram_size: Some("8K".to_string()),
        prg_nvram_size: None,
        chr_rom_size: "8K".to_string(),
        chr_ram_size: None,
        chr_nvram_size: None,
    }
}

fn minimal() -> Header {
    Header {
        mapper: 0,
        submapper: None,
        mirroring: None,
        battery: None,
        trainer: None,
        console: None,
        timing: None,
        vs_system_ppu: None,
        vs_system_hardware: None,
        prg_rom_size: "16K".to_string(),
        prg_ram_size: None,
        prg_nvram_size: None,
        chr_rom_size: "1024K".to_string(),
        chr_ram_size: None,
        chr_nvram_size: None,
    }
}

const SAMPLE_BYTES: [u8; 16] = [
    0x4e, 0x45, 0x53, 0x1a, 0x10, 0x01, 0x33, 0x22, 0x51, 0x00, 0x07, 0x00, 0x01, 0x00, 0x00, 0x00,
];

#[test]
fn encodes_sample_layout() {
    assert_eq!(sample().into_bytes(), Ok(SAMPLE_BYTES));
}

#[test]
fn decoder_and_encoder_types() {
    let mut decoder = Decoder::new(sample());
    assert_eq!(decoder.decode(), Ok(SAMPLE_BYTES));
    let mut encoder = Encoder::new();
    assert_eq!(encoder.encode(SAMPLE_BYTES).map(|h| h.mapper), Ok(0x123));
}

#[test]
fn decodes_sample_layout() {
    let h = Header::from_bytes(SAMPLE_BYTES).unwrap();
    assert_eq!(h.mapper, 0x123);
    assert_eq!(h.submapper, Some(5));
    assert_eq!(h.mirroring, Some(Mirroring::Horizontal));
    assert_eq!(h.battery, Some(true));
    assert_eq!(h.trainer, Some(false));
    assert_eq!(h.console, Some(Console::Nes));
    assert_eq!(h.timing, Some(Timing::RP2C07));
    assert_eq!(h.vs_system_ppu, None);
    assert_eq!(h.vs_system_hardware, None);
    assert_eq!(h.prg_rom_size, "256K");
    assert_eq!(h.prg_ram_size.as_deref(), Some("8K"));
    assert_eq!(h.prg_nvram_size.as_deref(), Some("0K"));
    assert_eq!(h.chr_rom_size, "8K");
    assert_eq!(h.chr_ram_size.as_deref(), Some("0K"));
    assert_eq!(h.chr_nvram_size.as_deref(), Some("0K"));
}

#[test]
fn round_trip_fills_defaults() {
    let bytes = minimal().into_bytes().unwrap();
    let h = Header::from_bytes(bytes).unwrap();
    assert_eq!(h.mapper, 0);
    assert_eq!(h.submapper, Some(0));
    assert_eq!(h.mirroring, Some(Mirroring::Vertical));
    assert_eq!(h.battery, Some(false));
    assert_eq!(h.trainer, Some(false));
    assert_eq!(h.console, Some(Console::Nes));
    assert_eq!(h.timing, Some(Timing::RP2C02));
    assert_eq!(h.vs_system_ppu, None);
    assert_eq!(h.vs_system_hardware, None);
    assert_eq!(h.prg_rom_size, "16K");
    assert_eq!(h.chr_rom_size, "1M");
    assert_eq!(h.prg_ram_size.as_deref(), Some("0K"));
}

#[test]
fn round_trip_reencodes_identically() {
    for header in [sample(), minimal(), vs_system_sample(), extended_console_sample()] {
        let bytes = header.into_bytes().unwrap();
        let again = Header::from_bytes(bytes).unwrap().into_bytes().unwrap();
        assert_eq!(again, bytes);
    }
}

fn vs_system_sample() -> Header {
    Header {
        console: Some(Console::VsSystem),
        vs_system_ppu: Some(VsSystemPPU::RC2C05_02),
        vs_system_hardware: Some(VsSystemHardware::DualSystemNormal),
        prg_rom_size: "3072".to_string(),
        ..sample()
    }
}

fn extended_console_sample() -> Header {
    Header {
        console: Some(Console::VT369),
        vs_system_ppu: Some(VsSystemPPU::Reserved0F),
        vs_system_hardware: Some(VsSystemHardware::UnisystemTKOBoxing),
        ..sample()
    }
}

#[test]
fn vs_system_fields_round_trip() {
    let bytes = vs_system_sample().into_bytes().unwrap();
    assert_eq!(bytes[4], 41);
    assert_eq!(bytes[7], 0x26);
    assert_eq!(bytes[9], 0x0F);
    assert_eq!(bytes[13], 0x59);
    let h = Header::from_bytes(bytes).unwrap();
    assert_eq!(h.console, Some(Console::VsSystem));
    assert_eq!(h.vs_system_ppu, Some(VsSystemPPU::RC2C05_02));
    assert_eq!(h.vs_system_hardware, Some(VsSystemHardware::DualSystemNormal));
    assert_eq!(h.prg_rom_size, "3072");
}

#[test]
fn extended_console_uses_byte_13() {
    let bytes = extended_console_sample().into_bytes().unwrap();
    assert_eq!(bytes[7], 0x2E);
    assert_eq!(bytes[13], 0x0A);
    let h = Header::from_bytes(bytes).unwrap();
    assert_eq!(h.console, Some(Console::VT369));
    assert_eq!(h.vs_system_ppu, None);
    assert_eq!(h.vs_system_hardware, None);
}

#[test]
fn vs_system_gating_ignores_byte_13() {
    let mut bytes = SAMPLE_BYTES;
    bytes[13] = 0x7F;
    let h = Header::from_bytes(bytes).unwrap();
    assert_eq!(h.console, Some(Console::Nes));
    assert_eq!(h.vs_system_ppu, None);
    assert_eq!(h.vs_system_hardware, None);
    bytes[7] = 0x2E;
    bytes[13] = 0x65;
    let h = Header::from_bytes(bytes).unwrap();
    assert_eq!(h.console, Some(Console::VT01));
    assert_eq!(h.vs_system_ppu, None);
    assert_eq!(h.vs_system_hardware, None);
}

#[test]
fn mapper_boundary() {
    let ok = Header { mapper: 0xFFF, ..sample() };
    let bytes = ok.into_bytes().unwrap();
    assert_eq!((bytes[6] >> 4, bytes[7] >> 4, bytes[8] & 0xF), (0xF, 0xF, 0xF));
    assert_eq!(Header::from_bytes(bytes).unwrap().mapper, 0xFFF);
    let too_large = Header { mapper: 0x1000, ..sample() };
    assert_eq!(too_large.into_bytes(), Err(HeaderError::MapperTooLarge(0x1000)));
}

#[test]
fn submapper_boundary() {
    let ok = Header { submapper: Some(0xF), ..sample() };
    assert_eq!(ok.into_bytes().unwrap()[8] >> 4, 0xF);
    let too_large = Header { submapper: Some(0x10), ..sample() };
    assert_eq!(too_large.into_bytes(), Err(HeaderError::SubmapperTooLarge(0x10)));
}

#[test]
fn size_errors_name_their_field() {
    let bad_literal = Header { prg_rom_size: "12X".to_string(), ..sample() };
    assert_eq!(
        bad_literal.into_bytes(),
        Err(HeaderError::Size(SizeField::PrgRom, SizeError::InvalidLiteral))
    );
    let overflow = Header { chr_ram_size: Some("18014398509481984K".to_string()), ..sample() };
    assert_eq!(
        overflow.into_bytes(),
        Err(HeaderError::Size(SizeField::ChrRam, SizeError::Overflow))
    );
    let bad_rom = Header { chr_rom_size: "9".to_string(), ..sample() };
    assert_eq!(
        bad_rom.into_bytes(),
        Err(HeaderError::Size(SizeField::ChrRom, SizeError::InvalidRomSize(9)))
    );
    let bad_ram = Header { prg_nvram_size: Some("100".to_string()), ..sample() };
    assert_eq!(
        bad_ram.into_bytes(),
        Err(HeaderError::Size(SizeField::PrgNvram, SizeError::InvalidRamSize(100)))
    );
}

#[test]
fn mirroring_and_flags() {
    let four = Header { mirroring: Some(Mirroring::FourScreens), trainer: Some(true), ..sample() };
    let bytes = four.into_bytes().unwrap();
    assert_eq!(bytes[6], 0x3E);
    let h = Header::from_bytes(bytes).unwrap();
    assert_eq!(h.mirroring, Some(Mirroring::FourScreens));
    assert_eq!(h.battery, Some(true));
    assert_eq!(h.trainer, Some(true));
}

#[test]
fn signature_rejection() {
    let mut bytes = SAMPLE_BYTES;
    bytes[3] = 0x1b;
    assert_eq!(Header::from_bytes(bytes), Err(HeaderError::BadSignature));
    let mut bytes = SAMPLE_BYTES;
    bytes[0] = 0;
    bytes[7] = 0;
    assert_eq!(Header::from_bytes(bytes), Err(HeaderError::BadSignature));
}

#[test]
fn format_marker_rejection() {
    let mut bytes = SAMPLE_BYTES;
    bytes[7] = 0x20;
    assert_eq!(Header::from_bytes(bytes), Err(HeaderError::BadFormatMarker));
    bytes[7] = 0x28;
    assert_eq!(Header::from_bytes(bytes), Err(HeaderError::BadFormatMarker));
    bytes[7] = 0x23;
    assert_eq!(Header::from_bytes(bytes), Err(HeaderError::BadFormatMarker));
    bytes[7] = 0x21;
    assert_eq!(Header::from_bytes(bytes), Err(HeaderError::BadFormatMarker));
}

#[test]
fn invalid_hardware_code() {
    let mut bytes = SAMPLE_BYTES;
    bytes[7] = 0x26;
    bytes[13] = 0x70;
    assert_eq!(Header::from_bytes(bytes), Err(HeaderError::InvalidVariantCode(VariantField::VsSystemHardware, 7)));
}

#[test]
fn exponent_too_large_on_decode() {
    let mut bytes = SAMPLE_BYTES;
    bytes[4] = 244;
    bytes[9] = 0x0F;
    assert_eq!(
        Header::from_bytes(bytes),
        Err(HeaderError::Size(SizeField::PrgRom, SizeError::TooLarge(61)))
    );
    let mut bytes = SAMPLE_BYTES;
    bytes[5] = 0xFC;
    bytes[9] = 0xF0;
    assert_eq!(
        Header::from_bytes(bytes),
        Err(HeaderError::Size(SizeField::ChrRom, SizeError::TooLarge(63)))
    );
}
