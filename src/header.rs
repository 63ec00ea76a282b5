//! The header record, its mathematical model, and the byte layout that the
//! codec writes and reads.

use crate::console::Console;
use crate::decoder::Decoder;
use crate::encoder::Encoder;
use crate::mirroring::Mirroring;
use crate::size::{literal_bytes, ram_code, ram_literal, rom_code, rom_literal, SizeError};
use crate::timing::Timing;
use crate::vs_system::{VsSystemHardware, VsSystemPPU};
use vstd::prelude::*;

verus! {

/// The four bytes every header starts with: `"NES"` and an end-of-file mark.
pub const SIGNATURE: [u8; 4] = [0x4e, 0x45, 0x53, 0x1a];

/// Bits 0-1 of byte 7 that mark the extended format.
pub const FORMAT_MARKER: u8 = 0b10;

/// Bytes per linear PRG-ROM unit, in KiB.
pub const PRG_UNIT: u64 = 16;

/// Bytes per linear CHR-ROM unit, in KiB.
pub const CHR_UNIT: u64 = 8;

/// The size fields of a header.
#[derive(Debug, Clone, Copy, PartialEq, Eq, Structural)]
pub enum SizeField {
    PrgRom,
    PrgRam,
    PrgNvram,
    ChrRom,
    ChrRam,
    ChrNvram,
}

/// The fields of a header that hold a variant code.
#[derive(Debug, Clone, Copy, PartialEq, Eq, Structural)]
pub enum VariantField {
    Console,
    Timing,
    VsSystemPpu,
    VsSystemHardware,
}

/// Why a header record or a header buffer could not be converted.
#[derive(Debug, Clone, Copy, PartialEq, Eq, Structural)]
pub enum HeaderError {
    /// The mapper number does not fit in 12 bits.
    MapperTooLarge(u64),
    /// The submapper number does not fit in 4 bits.
    SubmapperTooLarge(u64),
    /// A size field could not be converted.
    Size(SizeField, SizeError),
    /// The buffer does not start with the signature.
    BadSignature,
    /// Byte 7 does not carry the extended-format marker.
    BadFormatMarker,
    /// A variant field holds a code that names no variant.
    InvalidVariantCode(VariantField, u8),
}

/// A header as edited by hand: absent optional fields take their defaults.
#[derive(Debug, Clone, PartialEq, Eq)]
pub struct Header {
    pub mapper: u64,
    pub submapper: Option<u64>,
    pub mirroring: Option<Mirroring>,
    pub battery: Option<bool>,
    pub trainer: Option<bool>,
    pub console: Option<Console>,
    pub timing: Option<Timing>,
    pub vs_system_ppu: Option<VsSystemPPU>,
    pub vs_system_hardware: Option<VsSystemHardware>,
    pub prg_rom_size: String,
    pub prg_ram_size: Option<String>,
    pub prg_nvram_size: Option<String>,
    pub chr_rom_size: String,
    pub chr_ram_size: Option<String>,
    pub chr_nvram_size: Option<String>,
}

/// The model of a `Header`: its size literals as character sequences.
pub struct HeaderView {
    pub mapper: u64,
    pub submapper: Option<u64>,
    pub mirroring: Option<Mirroring>,
    pub battery: Option<bool>,
    pub trainer: Option<bool>,
    pub console: Option<Console>,
    pub timing: Option<Timing>,
    pub vs_system_ppu: Option<VsSystemPPU>,
    pub vs_system_hardware: Option<VsSystemHardware>,
    pub prg_rom_size: Seq<char>,
    pub prg_ram_size: Option<Seq<char>>,
    pub prg_nvram_size: Option<Seq<char>>,
    pub chr_rom_size: Seq<char>,
    pub chr_ram_size: Option<Seq<char>>,
    pub chr_nvram_size: Option<Seq<char>>,
}

pub open spec fn text_view(s: Option<String>) -> Option<Seq<char>> {
    match s {
        Some(t) => Some(t@),
        None => None,
    }
}

impl View for Header {
    type V = HeaderView;

    open spec fn view(&self) -> HeaderView {
        HeaderView {
            mapper: self.mapper,
            submapper: self.submapper,
            mirroring: self.mirroring,
            battery: self.battery,
            trainer: self.trainer,
            console: self.console,
            timing: self.timing,
            vs_system_ppu: self.vs_system_ppu,
            vs_system_hardware: self.vs_system_hardware,
            prg_rom_size: self.prg_rom_size@,
            prg_ram_size: text_view(self.prg_ram_size),
            prg_nvram_size: text_view(self.prg_nvram_size),
            chr_rom_size: self.chr_rom_size@,
            chr_ram_size: text_view(self.chr_ram_size),
            chr_nvram_size: text_view(self.chr_nvram_size),
        }
    }
}

impl HeaderView {
    pub open spec fn submapper_or_default(self) -> u64 {
        match self.submapper {
            Some(s) => s,
            None => 0,
        }
    }

    pub open spec fn mirroring_or_default(self) -> Mirroring {
        match self.mirroring {
            Some(m) => m,
            None => Mirroring::Vertical,
        }
    }

    pub open spec fn battery_or_default(self) -> bool {
        match self.battery {
            Some(b) => b,
            None => false,
        }
    }

    pub open spec fn trainer_or_default(self) -> bool {
        match self.trainer {
            Some(b) => b,
            None => false,
        }
    }

    pub open spec fn console_or_default(self) -> Console {
        match self.console {
            Some(c) => c,
            None => Console::Nes,
        }
    }

    pub open spec fn timing_or_default(self) -> Timing {
        match self.timing {
            Some(t) => t,
            None => Timing::RP2C02,
        }
    }

    pub open spec fn ppu_or_default(self) -> VsSystemPPU {
        match self.vs_system_ppu {
            Some(p) => p,
            None => VsSystemPPU::Any,
        }
    }

    pub open spec fn hardware_or_default(self) -> VsSystemHardware {
        match self.vs_system_hardware {
            Some(h) => h,
            None => VsSystemHardware::UnisystemNormal,
        }
    }

    pub open spec fn is_vs_system(self) -> bool {
        self.console_or_default() == Console::VsSystem
    }
}

/// The byte count of an optional RAM literal; an absent one is 0 bytes.
pub open spec fn optional_bytes(s: Option<Seq<char>>) -> Result<u64, SizeError> {
    match s {
        Some(t) => literal_bytes(t),
        None => Ok(0),
    }
}

/// Low byte and high nibble of a ROM size literal.
pub open spec fn rom_field(s: Seq<char>, unit_size: u64) -> Result<(u8, u8), SizeError> {
    match literal_bytes(s) {
        Ok(bytes) => rom_code(bytes, unit_size),
        Err(e) => Err(e),
    }
}

/// Shift count of an optional RAM size literal.
pub open spec fn ram_field(s: Option<Seq<char>>) -> Result<u8, SizeError> {
    match optional_bytes(s) {
        Ok(bytes) => ram_code(bytes),
        Err(e) => Err(e),
    }
}

pub open spec fn mirroring_bits(m: Mirroring) -> u8 {
    m.spec_code()
}

pub open spec fn flag_bit(b: bool, bit: u8) -> u8 {
    if b {
        bit
    } else {
        0
    }
}

/// Bits 2-3 of byte 7: the console code, or 3 for a code given in byte 13.
pub open spec fn console_short_code(c: Console) -> u8 {
    if c.spec_code() < 3 {
        c.spec_code()
    } else {
        3
    }
}

/// Byte 13: the Vs. System PPU and hardware codes, or the console code for a
/// console that byte 7 cannot name.
pub open spec fn byte13(h: HeaderView) -> u8 {
    if h.is_vs_system() {
        h.ppu_or_default().spec_code() | (h.hardware_or_default().spec_code() << 4u8)
    } else if h.console_or_default().spec_code() < 3 {
        0
    } else {
        h.console_or_default().spec_code()
    }
}

/// The 16 bytes of a header whose fields all convert, given the codes of its
/// size fields.
pub open spec fn layout(
    h: HeaderView,
    prg_rom: (u8, u8),
    prg_ram: u8,
    prg_nvram: u8,
    chr_rom: (u8, u8),
    chr_ram: u8,
    chr_nvram: u8,
) -> Seq<u8> {
    let m = h.mapper;
    seq![
        SIGNATURE[0], SIGNATURE[1], SIGNATURE[2], SIGNATURE[3],
        prg_rom.0,
        chr_rom.0,
        ((m % 16) as u8) << 4u8 | mirroring_bits(h.mirroring_or_default())
            | flag_bit(h.battery_or_default(), 0b10) | flag_bit(h.trainer_or_default(), 0b100),
        ((m / 16 % 16) as u8) << 4u8 | console_short_code(h.console_or_default()) << 2u8
            | FORMAT_MARKER,
        (m / 256 % 16) as u8 | (h.submapper_or_default() as u8) << 4u8,
        prg_rom.1 | chr_rom.1 << 4u8,
        prg_ram | prg_nvram << 4u8,
        chr_ram | chr_nvram << 4u8,
        h.timing_or_default().spec_code(),
        byte13(h),
        0u8, 0u8,
    ]
}

/// The bytes a header record encodes to, or the first field that fails, in
/// the order mapper, submapper, then the size fields.
pub open spec fn encoded(h: HeaderView) -> Result<Seq<u8>, HeaderError> {
    let prg_rom = rom_field(h.prg_rom_size, PRG_UNIT);
    let prg_ram = ram_field(h.prg_ram_size);
    let prg_nvram = ram_field(h.prg_nvram_size);
    let chr_rom = rom_field(h.chr_rom_size, CHR_UNIT);
    let chr_ram = ram_field(h.chr_ram_size);
    let chr_nvram = ram_field(h.chr_nvram_size);
    if h.mapper > 0xFFF {
        Err(HeaderError::MapperTooLarge(h.mapper))
    } else if h.submapper_or_default() > 0xF {
        Err(HeaderError::SubmapperTooLarge(h.submapper_or_default()))
    } else if prg_rom is Err {
        Err(HeaderError::Size(SizeField::PrgRom, prg_rom->Err_0))
    } else if prg_ram is Err {
        Err(HeaderError::Size(SizeField::PrgRam, prg_ram->Err_0))
    } else if prg_nvram is Err {
        Err(HeaderError::Size(SizeField::PrgNvram, prg_nvram->Err_0))
    } else if chr_rom is Err {
        Err(HeaderError::Size(SizeField::ChrRom, chr_rom->Err_0))
    } else if chr_ram is Err {
        Err(HeaderError::Size(SizeField::ChrRam, chr_ram->Err_0))
    } else if chr_nvram is Err {
        Err(HeaderError::Size(SizeField::ChrNvram, chr_nvram->Err_0))
    } else {
        Ok(
            layout(
                h,
                prg_rom->Ok_0,
                prg_ram->Ok_0,
                prg_nvram->Ok_0,
                chr_rom->Ok_0,
                chr_ram->Ok_0,
                chr_nvram->Ok_0,
            ),
        )
    }
}

pub open spec fn has_signature(b: Seq<u8>) -> bool {
    b[0] == SIGNATURE[0] && b[1] == SIGNATURE[1] && b[2] == SIGNATURE[2] && b[3] == SIGNATURE[3]
}

pub open spec fn decoded_mapper(b: Seq<u8>) -> u64 {
    ((b[6] >> 4u8) + 16 * (b[7] >> 4u8) + 256 * (b[8] & 0xFu8)) as u64
}

pub open spec fn decoded_mirroring(b6: u8) -> Mirroring {
    if b6 & 0b1000u8 != 0 {
        Mirroring::FourScreens
    } else if b6 & 0b1u8 != 0 {
        Mirroring::Horizontal
    } else {
        Mirroring::Vertical
    }
}

/// The console code that a buffer gives: bits 2-3 of byte 7, or the low
/// nibble of byte 13 where those bits are both set.
pub open spec fn console_code(b: Seq<u8>) -> u8 {
    if (b[7] >> 2u8) & 0b11u8 == 3 {
        b[13] & 0xFu8
    } else {
        (b[7] >> 2u8) & 0b11u8
    }
}

/// The header record that 16 bytes decode to: every optional field present,
/// the Vs. System fields present exactly when the console is the Vs. System.
/// Fails on a bad signature, a bad format marker, an unknown variant code, or
/// a size field that does not convert, in that order.
pub open spec fn decoded(b: Seq<u8>) -> Result<HeaderView, HeaderError> {
    let console = Console::spec_from_code(console_code(b));
    let timing = Timing::spec_from_code(b[12] & 0b11u8);
    let ppu = VsSystemPPU::spec_from_code(b[13] & 0xFu8);
    let hardware = VsSystemHardware::spec_from_code(b[13] >> 4u8);
    let prg_rom = rom_literal(b[4], b[9] & 0xFu8, PRG_UNIT);
    let chr_rom = rom_literal(b[5], b[9] >> 4u8, CHR_UNIT);
    if !has_signature(b) {
        Err(HeaderError::BadSignature)
    } else if b[7] & 0b11u8 != FORMAT_MARKER {
        Err(HeaderError::BadFormatMarker)
    } else if console is None {
        Err(HeaderError::InvalidVariantCode(VariantField::Console, console_code(b)))
    } else if timing is None {
        Err(HeaderError::InvalidVariantCode(VariantField::Timing, b[12] & 0b11u8))
    } else if console == Some(Console::VsSystem) && ppu is None {
        Err(HeaderError::InvalidVariantCode(VariantField::VsSystemPpu, b[13] & 0xFu8))
    } else if console == Some(Console::VsSystem) && hardware is None {
        Err(HeaderError::InvalidVariantCode(VariantField::VsSystemHardware, b[13] >> 4u8))
    } else if prg_rom is Err {
        Err(HeaderError::Size(SizeField::PrgRom, prg_rom->Err_0))
    } else if chr_rom is Err {
        Err(HeaderError::Size(SizeField::ChrRom, chr_rom->Err_0))
    } else {
        let vs = console == Some(Console::VsSystem);
        Ok(
            HeaderView {
                mapper: decoded_mapper(b),
                submapper: Some((b[8] >> 4u8) as u64),
                mirroring: Some(decoded_mirroring(b[6])),
                battery: Some(b[6] & 0b10u8 != 0),
                trainer: Some(b[6] & 0b100u8 != 0),
                console,
                timing,
                vs_system_ppu: if vs {
                    ppu
                } else {
                    None
                },
                vs_system_hardware: if vs {
                    hardware
                } else {
                    None
                },
                prg_rom_size: prg_rom->Ok_0,
                prg_ram_size: Some(ram_literal(b[10] & 0xFu8)),
                prg_nvram_size: Some(ram_literal(b[10] >> 4u8)),
                chr_rom_size: chr_rom->Ok_0,
                chr_ram_size: Some(ram_literal(b[11] & 0xFu8)),
                chr_nvram_size: Some(ram_literal(b[11] >> 4u8)),
            },
        )
    }
}

/// Two records that describe the same header: equal fields once absent ones
/// take their defaults, Vs. System fields compared only on a Vs. System
/// console, and size literals that name the same byte counts.
pub open spec fn same_header(a: HeaderView, b: HeaderView) -> bool {
    &&& a.mapper == b.mapper
    &&& a.submapper_or_default() == b.submapper_or_default()
    &&& a.mirroring_or_default() == b.mirroring_or_default()
    &&& a.battery_or_default() == b.battery_or_default()
    &&& a.trainer_or_default() == b.trainer_or_default()
    &&& a.console_or_default() == b.console_or_default()
    &&& a.timing_or_default() == b.timing_or_default()
    &&& a.is_vs_system() ==> a.ppu_or_default() == b.ppu_or_default()
    &&& a.is_vs_system() ==> a.hardware_or_default() == b.hardware_or_default()
    &&& literal_bytes(a.prg_rom_size) == literal_bytes(b.prg_rom_size)
    &&& optional_bytes(a.prg_ram_size) == optional_bytes(b.prg_ram_size)
    &&& optional_bytes(a.prg_nvram_size) == optional_bytes(b.prg_nvram_size)
    &&& literal_bytes(a.chr_rom_size) == literal_bytes(b.chr_rom_size)
    &&& optional_bytes(a.chr_ram_size) == optional_bytes(b.chr_ram_size)
    &&& optional_bytes(a.chr_nvram_size) == optional_bytes(b.chr_nvram_size)
}

/// Every optional field is present, but the Vs. System fields, which are
/// present exactly on a Vs. System console.
pub open spec fn is_explicit(h: HeaderView) -> bool {
    &&& h.submapper is Some
    &&& h.mirroring is Some
    &&& h.battery is Some
    &&& h.trainer is Some
    &&& h.console is Some
    &&& h.timing is Some
    &&& h.vs_system_ppu is Some <==> h.is_vs_system()
    &&& h.vs_system_hardware is Some <==> h.is_vs_system()
    &&& h.prg_ram_size is Some
    &&& h.prg_nvram_size is Some
    &&& h.chr_ram_size is Some
    &&& h.chr_nvram_size is Some
}

impl Header {
    /// Reads a header record from its 16 bytes.
    pub fn from_bytes(bytes: [u8; 16]) -> (r: Result<Header, HeaderError>)
        ensures
            match r {
                Ok(h) => decoded(bytes@) == Ok::<HeaderView, HeaderError>(h@),
                Err(e) => decoded(bytes@) == Err::<HeaderView, HeaderError>(e),
            },
    {
        let mut encoder = Encoder::new();
        encoder.encode(bytes)
    }

    /// Writes the header record as its 16 bytes.
    pub fn into_bytes(self) -> (r: Result<[u8; 16], HeaderError>)
        ensures
            match r {
                Ok(b) => encoded(self@) == Ok::<Seq<u8>, HeaderError>(b@),
                Err(e) => encoded(self@) == Err::<Seq<u8>, HeaderError>(e),
            },
    {
        let mut decoder = Decoder::new(self);
        decoder.decode()
    }
}

} // verus!
