//! Turns a header record into its 16 bytes.

use crate::console::Console;
use crate::header::{
    byte13, console_short_code, encoded, flag_bit, layout, mirroring_bits, ram_field, rom_field,
    Header, HeaderError, HeaderView, SizeField, CHR_UNIT, FORMAT_MARKER, PRG_UNIT, SIGNATURE,
};
use crate::mirroring::Mirroring;
use crate::size::{decode_ram_size, decode_rom_size};
use crate::timing::Timing;
use crate::vs_system::{VsSystemHardware, VsSystemPPU};
use vstd::prelude::*;

verus! {

/// Writes a `Header` as the 16 bytes of an NES 2.0 header.
pub struct Decoder {
    buffer: [u8; 16],
    header: Header,
}

impl View for Decoder {
    type V = HeaderView;

    closed spec fn view(&self) -> HeaderView {
        self.header@
    }
}

/// Encodes an optional RAM size literal; an absent one is size 0.
fn optional_ram_size(size: &Option<String>, field: SizeField) -> (r: Result<u8, HeaderError>)
    ensures
        match r {
            Ok(c) => ram_field(crate::header::text_view(*size)) == Ok::<u8, crate::size::SizeError>(c),
            Err(e) => ram_field(crate::header::text_view(*size)) is Err && e == HeaderError::Size(
                field,
                ram_field(crate::header::text_view(*size))->Err_0,
            ),
        },
{
    match size {
        Some(s) => match decode_ram_size(s.as_str()) {
            Ok(c) => Ok(c),
            Err(e) => Err(HeaderError::Size(field, e)),
        },
        None => Ok(0),
    }
}

/// Encodes a ROM size literal into its low byte and high nibble.
fn rom_size(size: &String, unit_size: u64, field: SizeField) -> (r: Result<(u8, u8), HeaderError>)
    requires
        unit_size == 8 || unit_size == 16,
    ensures
        match r {
            Ok(c) => rom_field(size@, unit_size) == Ok::<(u8, u8), crate::size::SizeError>(c),
            Err(e) => rom_field(size@, unit_size) is Err && e == HeaderError::Size(
                field,
                rom_field(size@, unit_size)->Err_0,
            ),
        },
{
    match decode_rom_size(size.as_str(), unit_size) {
        Ok(c) => Ok(c),
        Err(e) => Err(HeaderError::Size(field, e)),
    }
}

impl Decoder {
    /// Prepares the conversion of `header`.
    pub fn new(header: Header) -> (r: Decoder)
        ensures
            r@ == header@,
    {
        Decoder { buffer: [0u8; 16], header }
    }

    /// The 16 bytes of the header, or the first field that does not convert.
    pub fn decode(&mut self) -> (r: Result<[u8; 16], HeaderError>)
        ensures
            final(self)@ == old(self)@,
            match r {
                Ok(b) => encoded(old(self)@) == Ok::<Seq<u8>, HeaderError>(b@),
                Err(e) => encoded(old(self)@) == Err::<Seq<u8>, HeaderError>(e),
            },
    {
        let (mapper6, mapper7, mapper8) = self.decode_mapper()?;
        let submapper = self.decode_submapper()?;
        let prg_rom = self.decode_prg_rom_size()?;
        let prg_ram = self.decode_prg_ram_size()?;
        let prg_nvram = self.decode_prg_nvram_size()?;
        let chr_rom = self.decode_chr_rom_size()?;
        let chr_ram = self.decode_chr_ram_size()?;
        let chr_nvram = self.decode_chr_nvram_size()?;
        let mirroring = self.decode_mirroring();
        let battery = self.decode_battery();
        let trainer = self.decode_trainer();
        let (console7, console13) = self.decode_console();
        let timing = self.decode_timing();
        let vs_system = self.decode_vs_system_ppu() | self.decode_vs_system_hardware();
        let byte13 = if matches!(self.header.console, Some(Console::VsSystem)) {
            vs_system
        } else {
            console13
        };
        let buffer: [u8; 16] = [
            SIGNATURE[0],
            SIGNATURE[1],
            SIGNATURE[2],
            SIGNATURE[3],
            prg_rom.0,
            chr_rom.0,
            mapper6 | mirroring | battery | trainer,
            mapper7 | console7 | FORMAT_MARKER,
            mapper8 | submapper,
            prg_rom.1 | chr_rom.1 << 4u8,
            prg_ram | prg_nvram << 4u8,
            chr_ram | chr_nvram << 4u8,
            timing,
            byte13,
            0,
            0,
        ];
        assert(buffer@ =~= layout(self@, prg_rom, prg_ram, prg_nvram, chr_rom, chr_ram, chr_nvram));
        self.buffer = buffer;
        Ok(buffer)
    }

    /// Mapper bits of bytes 6, 7 and 8.
    fn decode_mapper(&self) -> (r: Result<(u8, u8, u8), HeaderError>)
        ensures
            match r {
                Ok((b6, b7, b8)) => {
                    &&& self@.mapper <= 0xFFF
                    &&& b6 == ((self@.mapper % 16) as u8) << 4u8
                    &&& b7 == ((self@.mapper / 16 % 16) as u8) << 4u8
                    &&& b8 == (self@.mapper / 256 % 16) as u8
                },
                Err(e) => self@.mapper > 0xFFF && e == HeaderError::MapperTooLarge(self@.mapper),
            },
    {
        let mapper = self.header.mapper;
        if mapper > 0xFFF {
            return Err(HeaderError::MapperTooLarge(mapper));
        }
        Ok((((mapper % 16) as u8) << 4u8, ((mapper / 16 % 16) as u8) << 4u8, (mapper / 256 % 16) as u8))
    }

    /// Submapper bits of byte 8.
    fn decode_submapper(&self) -> (r: Result<u8, HeaderError>)
        ensures
            match r {
                Ok(b) => self@.submapper_or_default() <= 0xF && b == (self@.submapper_or_default() as u8) << 4u8,
                Err(e) => self@.submapper_or_default() > 0xF && e == HeaderError::SubmapperTooLarge(
                    self@.submapper_or_default(),
                ),
            },
    {
        let submapper = match self.header.submapper {
            Some(s) => s,
            None => 0,
        };
        if submapper > 0xF {
            return Err(HeaderError::SubmapperTooLarge(submapper));
        }
        Ok((submapper as u8) << 4u8)
    }

    /// Mirroring bits of byte 6.
    fn decode_mirroring(&self) -> (r: u8)
        ensures
            r == mirroring_bits(self@.mirroring_or_default()),
    {
        let mirroring = match self.header.mirroring {
            Some(m) => m,
            None => Mirroring::Vertical,
        };
        mirroring.code()
    }

    /// Battery bit of byte 6.
    fn decode_battery(&self) -> (r: u8)
        ensures
            r == flag_bit(self@.battery_or_default(), 0b10),
    {
        match self.header.battery {
            Some(true) => 0b10,
            _ => 0,
        }
    }

    /// Trainer bit of byte 6.
    fn decode_trainer(&self) -> (r: u8)
        ensures
            r == flag_bit(self@.trainer_or_default(), 0b100),
    {
        match self.header.trainer {
            Some(true) => 0b100,
            _ => 0,
        }
    }

    /// Console bits of byte 7, and of byte 13 for a console that byte 7
    /// cannot name.
    fn decode_console(&self) -> (r: (u8, u8))
        ensures
            r.0 == console_short_code(self@.console_or_default()) << 2u8,
            !self@.is_vs_system() ==> r.1 == byte13(self@),
    {
        let console = match self.header.console {
            Some(c) => c,
            None => Console::Nes,
        };
        let code = console.code();
        if code < 3 {
            (code << 2u8, 0)
        } else {
            (0b11u8 << 2u8, code)
        }
    }

    /// Timing bits of byte 12.
    fn decode_timing(&self) -> (r: u8)
        ensures
            r == self@.timing_or_default().spec_code(),
    {
        let timing = match self.header.timing {
            Some(t) => t,
            None => Timing::RP2C02,
        };
        timing.code()
    }

    /// Vs. System PPU bits of byte 13.
    fn decode_vs_system_ppu(&self) -> (r: u8)
        ensures
            r == self@.ppu_or_default().spec_code(),
    {
        let ppu = match self.header.vs_system_ppu {
            Some(p) => p,
            None => VsSystemPPU::Any,
        };
        ppu.code()
    }

    /// Vs. System hardware bits of byte 13.
    fn decode_vs_system_hardware(&self) -> (r: u8)
        ensures
            r == self@.hardware_or_default().spec_code() << 4u8,
    {
        let hardware = match self.header.vs_system_hardware {
            Some(h) => h,
            None => VsSystemHardware::UnisystemNormal,
        };
        hardware.code() << 4u8
    }

    fn decode_prg_rom_size(&self) -> (r: Result<(u8, u8), HeaderError>)
        ensures
            match r {
                Ok(c) => rom_field(self@.prg_rom_size, PRG_UNIT) == Ok::<(u8, u8), crate::size::SizeError>(c),
                Err(e) => rom_field(self@.prg_rom_size, PRG_UNIT) is Err && e == HeaderError::Size(
                    SizeField::PrgRom,
                    rom_field(self@.prg_rom_size, PRG_UNIT)->Err_0,
                ),
            },
    {
        rom_size(&self.header.prg_rom_size, PRG_UNIT, SizeField::PrgRom)
    }

    fn decode_chr_rom_size(&self) -> (r: Result<(u8, u8), HeaderError>)
        ensures
            match r {
                Ok(c) => rom_field(self@.chr_rom_size, CHR_UNIT) == Ok::<(u8, u8), crate::size::SizeError>(c),
                Err(e) => rom_field(self@.chr_rom_size, CHR_UNIT) is Err && e == HeaderError::Size(
                    SizeField::ChrRom,
                    rom_field(self@.chr_rom_size, CHR_UNIT)->Err_0,
                ),
            },
    {
        rom_size(&self.header.chr_rom_size, CHR_UNIT, SizeField::ChrRom)
    }

    fn decode_prg_ram_size(&self) -> (r: Result<u8, HeaderError>)
        ensures
            match r {
                Ok(c) => ram_field(self@.prg_ram_size) == Ok::<u8, crate::size::SizeError>(c),
                Err(e) => ram_field(self@.prg_ram_size) is Err && e == HeaderError::Size(
                    SizeField::PrgRam,
                    ram_field(self@.prg_ram_size)->Err_0,
                ),
            },
    {
        optional_ram_size(&self.header.prg_ram_size, SizeField::PrgRam)
    }

    fn decode_prg_nvram_size(&self) -> (r: Result<u8, HeaderError>)
        ensures
            match r {
                Ok(c) => ram_field(self@.prg_nvram_size) == Ok::<u8, crate::size::SizeError>(c),
                Err(e) => ram_field(self@.prg_nvram_size) is Err && e == HeaderError::Size(
                    SizeField::PrgNvram,
                    ram_field(self@.prg_nvram_size)->Err_0,
                ),
            },
    {
        optional_ram_size(&self.header.prg_nvram_size, SizeField::PrgNvram)
    }

    fn decode_chr_ram_size(&self) -> (r: Result<u8, HeaderError>)
        ensures
            match r {
                Ok(c) => ram_field(self@.chr_ram_size) == Ok::<u8, crate::size::SizeError>(c),
                Err(e) => ram_field(self@.chr_ram_size) is Err && e == HeaderError::Size(
                    SizeField::ChrRam,
                    ram_field(self@.chr_ram_size)->Err_0,
                ),
            },
    {
        optional_ram_size(&self.header.chr_ram_size, SizeField::ChrRam)
    }

    fn decode_chr_nvram_size(&self) -> (r: Result<u8, HeaderError>)
        ensures
            match r {
                Ok(c) => ram_field(self@.chr_nvram_size) == Ok::<u8, crate::size::SizeError>(c),
                Err(e) => ram_field(self@.chr_nvram_size) is Err && e == HeaderError::Size(
                    SizeField::ChrNvram,
                    ram_field(self@.chr_nvram_size)->Err_0,
                ),
            },
    {
        optional_ram_size(&self.header.chr_nvram_size, SizeField::ChrNvram)
    }
}

} // verus!
