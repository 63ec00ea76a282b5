//! Reads a header record back from its 16 bytes.

use crate::console::Console;
use crate::header::{
    console_code, decoded, decoded_mapper, decoded_mirroring, has_signature, Header, HeaderError,
    SizeField, VariantField, CHR_UNIT, FORMAT_MARKER, PRG_UNIT, SIGNATURE,
};
use crate::mirroring::Mirroring;
use crate::size::{encode_ram_size, encode_rom_size, ram_literal, rom_literal};
use crate::timing::Timing;
use crate::vs_system::{VsSystemHardware, VsSystemPPU};
use vstd::prelude::*;

verus! {

/// Reads a `Header` from the 16 bytes of an NES 2.0 header.
pub struct Encoder {
    buffer: [u8; 16],
}

impl View for Encoder {
    type V = Seq<u8>;

    closed spec fn view(&self) -> Seq<u8> {
        self.buffer@
    }
}

impl Encoder {
    /// A reader with an empty buffer.
    pub fn new() -> (r: Encoder)
        ensures
            r@ == Seq::new(16, |i| 0u8),
    {
        let r = Encoder { buffer: [0u8; 16] };
        assert(r@ =~= Seq::new(16, |i| 0u8));
        r
    }

    /// The header record that `bytes` hold, or why they hold none.
    pub fn encode(&mut self, bytes: [u8; 16]) -> (r: Result<Header, HeaderError>)
        ensures
            final(self)@ == bytes@,
            match r {
                Ok(h) => decoded(bytes@) == Ok::<_, HeaderError>(h@),
                Err(e) => decoded(bytes@) == Err::<crate::header::HeaderView, HeaderError>(e),
            },
    {
        self.buffer = bytes;
        if !(self.buffer[0] == SIGNATURE[0] && self.buffer[1] == SIGNATURE[1] && self.buffer[2]
            == SIGNATURE[2] && self.buffer[3] == SIGNATURE[3]) {
            return Err(HeaderError::BadSignature);
        }
        if self.buffer[7] & 0b11u8 != FORMAT_MARKER {
            return Err(HeaderError::BadFormatMarker);
        }
        let console = self.encode_console()?;
        let timing = self.encode_timing()?;
        let vs_system = matches!(console, Console::VsSystem);
        let vs_system_ppu = if vs_system {
            Some(self.encode_vs_system_ppu()?)
        } else {
            None
        };
        let vs_system_hardware = if vs_system {
            Some(self.encode_vs_system_hardware()?)
        } else {
            None
        };
        let prg_rom_size = self.encode_prg_rom_size()?;
        let chr_rom_size = self.encode_chr_rom_size()?;
        Ok(
            Header {
                mapper: self.encode_mapper(),
                submapper: Some(self.encode_submapper()),
                mirroring: Some(self.encode_mirroring()),
                battery: Some(self.encode_battery()),
                trainer: Some(self.encode_trainer()),
                console: Some(console),
                timing: Some(timing),
                vs_system_ppu,
                vs_system_hardware,
                prg_rom_size,
                prg_ram_size: Some(self.encode_prg_ram_size()),
                prg_nvram_size: Some(self.encode_prg_nvram_size()),
                chr_rom_size,
                chr_ram_size: Some(self.encode_chr_ram_size()),
                chr_nvram_size: Some(self.encode_chr_nvram_size()),
            },
        )
    }

    fn encode_mapper(&self) -> (r: u64)
        ensures
            r == decoded_mapper(self@),
    {
        let low = (self.buffer[6] >> 4u8) as u64;
        let middle = (self.buffer[7] >> 4u8) as u64;
        let high = (self.buffer[8] & 0xFu8) as u64;
        low + 16 * middle + 256 * high
    }

    fn encode_submapper(&self) -> (r: u64)
        ensures
            r == (self@[8] >> 4u8) as u64,
    {
        (self.buffer[8] >> 4u8) as u64
    }

    fn encode_mirroring(&self) -> (r: Mirroring)
        ensures
            r == decoded_mirroring(self@[6]),
    {
        if self.buffer[6] & 0b1000u8 != 0 {
            Mirroring::FourScreens
        } else if self.buffer[6] & 0b1u8 != 0 {
            Mirroring::Horizontal
        } else {
            Mirroring::Vertical
        }
    }

    fn encode_battery(&self) -> (r: bool)
        ensures
            r == (self@[6] & 0b10u8 != 0),
    {
        self.buffer[6] & 0b10u8 != 0
    }

    fn encode_trainer(&self) -> (r: bool)
        ensures
            r == (self@[6] & 0b100u8 != 0),
    {
        self.buffer[6] & 0b100u8 != 0
    }

    fn encode_console(&self) -> (r: Result<Console, HeaderError>)
        requires
            self@.len() == 16,
        ensures
            match r {
                Ok(c) => Console::spec_from_code(console_code(self@)) == Some(c),
                Err(e) => Console::spec_from_code(console_code(self@)) is None
                    && e == HeaderError::InvalidVariantCode(VariantField::Console, console_code(self@)),
            },
    {
        let short = (self.buffer[7] >> 2u8) & 0b11u8;
        let code = if short == 3 {
            self.buffer[13] & 0xFu8
        } else {
            short
        };
        match Console::from_code(code) {
            Some(c) => Ok(c),
            None => Err(HeaderError::InvalidVariantCode(VariantField::Console, code)),
        }
    }

    fn encode_timing(&self) -> (r: Result<Timing, HeaderError>)
        ensures
            match r {
                Ok(t) => Timing::spec_from_code(self@[12] & 0b11u8) == Some(t),
                Err(e) => Timing::spec_from_code(self@[12] & 0b11u8) is None
                    && e == HeaderError::InvalidVariantCode(VariantField::Timing, self@[12] & 0b11u8),
            },
    {
        let code = self.buffer[12] & 0b11u8;
        match Timing::from_code(code) {
            Some(t) => Ok(t),
            None => Err(HeaderError::InvalidVariantCode(VariantField::Timing, code)),
        }
    }

    fn encode_vs_system_ppu(&self) -> (r: Result<VsSystemPPU, HeaderError>)
        ensures
            match r {
                Ok(p) => VsSystemPPU::spec_from_code(self@[13] & 0xFu8) == Some(p),
                Err(e) => VsSystemPPU::spec_from_code(self@[13] & 0xFu8) is None
                    && e == HeaderError::InvalidVariantCode(VariantField::VsSystemPpu, self@[13] & 0xFu8),
            },
    {
        let code = self.buffer[13] & 0xFu8;
        match VsSystemPPU::from_code(code) {
            Some(p) => Ok(p),
            None => Err(HeaderError::InvalidVariantCode(VariantField::VsSystemPpu, code)),
        }
    }

    fn encode_vs_system_hardware(&self) -> (r: Result<VsSystemHardware, HeaderError>)
        ensures
            match r {
                Ok(h) => VsSystemHardware::spec_from_code(self@[13] >> 4u8) == Some(h),
                Err(e) => VsSystemHardware::spec_from_code(self@[13] >> 4u8) is None
                    && e == HeaderError::InvalidVariantCode(VariantField::VsSystemHardware, self@[13] >> 4u8),
            },
    {
        let code = self.buffer[13] >> 4u8;
        match VsSystemHardware::from_code(code) {
            Some(h) => Ok(h),
            None => Err(HeaderError::InvalidVariantCode(VariantField::VsSystemHardware, code)),
        }
    }

    fn encode_prg_rom_size(&self) -> (r: Result<String, HeaderError>)
        ensures
            match r {
                Ok(s) => rom_literal(self@[4], self@[9] & 0xFu8, PRG_UNIT) == Ok::<_, crate::size::SizeError>(s@),
                Err(e) => rom_literal(self@[4], self@[9] & 0xFu8, PRG_UNIT) is Err && e
                    == HeaderError::Size(
                    SizeField::PrgRom,
                    rom_literal(self@[4], self@[9] & 0xFu8, PRG_UNIT)->Err_0,
                ),
            },
    {
        let lsb = self.buffer[4];
        let byte = self.buffer[9];
        let msb = byte & 0xFu8;
        assert(msb <= 0xF) by (bit_vector)
            requires
                msb == byte & 0xFu8,
        ;
        match encode_rom_size(lsb, msb, PRG_UNIT) {
            Ok(s) => Ok(s),
            Err(e) => Err(HeaderError::Size(SizeField::PrgRom, e)),
        }
    }

    fn encode_chr_rom_size(&self) -> (r: Result<String, HeaderError>)
        ensures
            match r {
                Ok(s) => rom_literal(self@[5], self@[9] >> 4u8, CHR_UNIT) == Ok::<_, crate::size::SizeError>(s@),
                Err(e) => rom_literal(self@[5], self@[9] >> 4u8, CHR_UNIT) is Err && e
                    == HeaderError::Size(
                    SizeField::ChrRom,
                    rom_literal(self@[5], self@[9] >> 4u8, CHR_UNIT)->Err_0,
                ),
            },
    {
        let lsb = self.buffer[5];
        let byte = self.buffer[9];
        let msb = byte >> 4u8;
        assert(msb <= 0xF) by (bit_vector)
            requires
                msb == byte >> 4u8,
        ;
        match encode_rom_size(lsb, msb, CHR_UNIT) {
            Ok(s) => Ok(s),
            Err(e) => Err(HeaderError::Size(SizeField::ChrRom, e)),
        }
    }

    fn encode_prg_ram_size(&self) -> (r: String)
        ensures
            r@ == ram_literal(self@[10] & 0xFu8),
    {
        let byte = self.buffer[10];
        let count = byte & 0xFu8;
        assert(count <= 0xF) by (bit_vector)
            requires
                count == byte & 0xFu8,
        ;
        encode_ram_size(count)
    }

    fn encode_prg_nvram_size(&self) -> (r: String)
        ensures
            r@ == ram_literal(self@[10] >> 4u8),
    {
        let byte = self.buffer[10];
        let count = byte >> 4u8;
        assert(count <= 0xF) by (bit_vector)
            requires
                count == byte >> 4u8,
        ;
        encode_ram_size(count)
    }

    fn encode_chr_ram_size(&self) -> (r: String)
        ensures
            r@ == ram_literal(self@[11] & 0xFu8),
    {
        let byte = self.buffer[11];
        let count = byte & 0xFu8;
        assert(count <= 0xF) by (bit_vector)
            requires
                count == byte & 0xFu8,
        ;
        encode_ram_size(count)
    }

    fn encode_chr_nvram_size(&self) -> (r: String)
        ensures
            r@ == ram_literal(self@[11] >> 4u8),
    {
        let byte = self.buffer[11];
        let count = byte >> 4u8;
        assert(count <= 0xF) by (bit_vector)
            requires
                count == byte >> 4u8,
        ;
        encode_ram_size(count)
    }
}

} // verus!
