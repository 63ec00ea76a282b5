//! What holds of the codec across calls: both round trips, the gating of the
//! Vs. System fields, and the rejection of buffers in another format.

use crate::console::Console;
use crate::header::{
    byte13, console_code, console_short_code, decoded, decoded_mapper, decoded_mirroring, encoded,
    flag_bit, has_signature, is_explicit, layout, mirroring_bits, optional_bytes, ram_field,
    rom_field, same_header, HeaderError, HeaderView, CHR_UNIT, FORMAT_MARKER, PRG_UNIT,
};
use crate::size::{
    lemma_ram_size_round_trip, lemma_rom_size_round_trip, literal_bytes, ram_literal, rom_literal,
};
use crate::timing::Timing;
use crate::vs_system::{VsSystemHardware, VsSystemPPU};
use vstd::prelude::*;

verus! {

proof fn lemma_nibbles(lo: u8, hi: u8)
    requires
        lo < 16,
        hi < 16,
    ensures
        (lo | hi << 4u8) & 0xFu8 == lo,
        (lo | hi << 4u8) >> 4u8 == hi,
{
    assert((lo | hi << 4u8) & 0xFu8 == lo) by (bit_vector)
        requires
            lo < 16,
            hi < 16,
    ;
    assert((lo | hi << 4u8) >> 4u8 == hi) by (bit_vector)
        requires
            lo < 16,
            hi < 16,
    ;
}

proof fn lemma_flags_byte(m: u8, mir: u8, bat: u8, tr: u8)
    requires
        m < 16,
        mir == 0 || mir == 1 || mir == 8,
        bat == 0 || bat == 2,
        tr == 0 || tr == 4,
    ensures
        (m << 4u8 | mir | bat | tr) >> 4u8 == m,
        ((m << 4u8 | mir | bat | tr) & 0b1000u8 != 0) == (mir == 8),
        ((m << 4u8 | mir | bat | tr) & 0b1u8 != 0) == (mir == 1),
        ((m << 4u8 | mir | bat | tr) & 0b10u8 != 0) == (bat == 2),
        ((m << 4u8 | mir | bat | tr) & 0b100u8 != 0) == (tr == 4),
{
    assert((m << 4u8 | mir | bat | tr) >> 4u8 == m
        && ((m << 4u8 | mir | bat | tr) & 0b1000u8 != 0) == (mir == 8)
        && ((m << 4u8 | mir | bat | tr) & 0b1u8 != 0) == (mir == 1)
        && ((m << 4u8 | mir | bat | tr) & 0b10u8 != 0) == (bat == 2)
        && ((m << 4u8 | mir | bat | tr) & 0b100u8 != 0) == (tr == 4)) by (bit_vector)
        requires
            m < 16,
            mir == 0 || mir == 1 || mir == 8,
            bat == 0 || bat == 2,
            tr == 0 || tr == 4,
    ;
}

proof fn lemma_console_byte(m: u8, c: u8)
    requires
        m < 16,
        c < 4,
    ensures
        (m << 4u8 | c << 2u8 | FORMAT_MARKER) & 0b11u8 == FORMAT_MARKER,
        ((m << 4u8 | c << 2u8 | FORMAT_MARKER) >> 2u8) & 0b11u8 == c,
        (m << 4u8 | c << 2u8 | FORMAT_MARKER) >> 4u8 == m,
{
    assert((m << 4u8 | c << 2u8 | 0b10u8) & 0b11u8 == 0b10u8 && ((m << 4u8 | c << 2u8 | 0b10u8)
        >> 2u8) & 0b11u8 == c && (m << 4u8 | c << 2u8 | 0b10u8) >> 4u8 == m) by (bit_vector)
        requires
            m < 16,
            c < 4,
    ;
}

proof fn lemma_small_code(t: u8)
    requires
        t < 4,
    ensures
        t & 0b11u8 == t,
        t & 0xFu8 == t,
{
    assert(t & 0b11u8 == t && t & 0xFu8 == t) by (bit_vector)
        requires
            t < 4,
    ;
}

proof fn lemma_low_nibble(t: u8)
    requires
        t < 16,
    ensures
        t & 0xFu8 == t,
{
    assert(t & 0xFu8 == t) by (bit_vector)
        requires
            t < 16,
    ;
}

/// What each field of an encoded buffer decodes to.
proof fn lemma_encoded_fields(h: HeaderView)
    requires
        encoded(h) is Ok,
    ensures
        ({
            let b = encoded(h)->Ok_0;
            &&& b.len() == 16
            &&& has_signature(b)
            &&& b[7] & 0b11u8 == FORMAT_MARKER
            &&& Console::spec_from_code(console_code(b)) == Some(h.console_or_default())
            &&& Timing::spec_from_code(b[12] & 0b11u8) == Some(h.timing_or_default())
            &&& h.is_vs_system() ==> VsSystemPPU::spec_from_code(b[13] & 0xFu8) == Some(h.ppu_or_default())
            &&& h.is_vs_system() ==> VsSystemHardware::spec_from_code(b[13] >> 4u8) == Some(h.hardware_or_default())
            &&& rom_literal(b[4], b[9] & 0xFu8, PRG_UNIT) is Ok
            &&& rom_literal(b[5], b[9] >> 4u8, CHR_UNIT) is Ok
            &&& literal_bytes(rom_literal(b[4], b[9] & 0xFu8, PRG_UNIT)->Ok_0) == literal_bytes(h.prg_rom_size)
            &&& literal_bytes(rom_literal(b[5], b[9] >> 4u8, CHR_UNIT)->Ok_0) == literal_bytes(h.chr_rom_size)
            &&& literal_bytes(ram_literal(b[10] & 0xFu8)) == optional_bytes(h.prg_ram_size)
            &&& literal_bytes(ram_literal(b[10] >> 4u8)) == optional_bytes(h.prg_nvram_size)
            &&& literal_bytes(ram_literal(b[11] & 0xFu8)) == optional_bytes(h.chr_ram_size)
            &&& literal_bytes(ram_literal(b[11] >> 4u8)) == optional_bytes(h.chr_nvram_size)
            &&& decoded_mapper(b) == h.mapper
            &&& (b[8] >> 4u8) as u64 == h.submapper_or_default()
            &&& decoded_mirroring(b[6]) == h.mirroring_or_default()
            &&& (b[6] & 0b10u8 != 0) == h.battery_or_default()
            &&& (b[6] & 0b100u8 != 0) == h.trainer_or_default()
        }),
{
    let b = encoded(h)->Ok_0;
    let prg_rom = rom_field(h.prg_rom_size, PRG_UNIT)->Ok_0;
    let chr_rom = rom_field(h.chr_rom_size, CHR_UNIT)->Ok_0;
    let prg_ram = ram_field(h.prg_ram_size)->Ok_0;
    let prg_nvram = ram_field(h.prg_nvram_size)->Ok_0;
    let chr_ram = ram_field(h.chr_ram_size)->Ok_0;
    let chr_nvram = ram_field(h.chr_nvram_size)->Ok_0;
    let m = h.mapper;
    let console = h.console_or_default();
    let ppu = h.ppu_or_default();
    let hardware = h.hardware_or_default();
    let m0 = (m % 16) as u8;
    let m1 = (m / 16 % 16) as u8;
    let m2 = (m / 256 % 16) as u8;
    let sub = h.submapper_or_default() as u8;
    let mir = mirroring_bits(h.mirroring_or_default());
    let bat = flag_bit(h.battery_or_default(), 0b10);
    let tr = flag_bit(h.trainer_or_default(), 0b100);
    assert(b == layout(h, prg_rom, prg_ram, prg_nvram, chr_rom, chr_ram, chr_nvram));
    assert(b.len() == 16);
    assert(b[4] == prg_rom.0 && b[5] == chr_rom.0);
    assert(b[6] == m0 << 4u8 | mir | bat | tr);
    assert(b[7] == m1 << 4u8 | console_short_code(console) << 2u8 | FORMAT_MARKER);
    assert(b[8] == m2 | sub << 4u8);
    assert(b[9] == prg_rom.1 | chr_rom.1 << 4u8);
    assert(b[10] == prg_ram | prg_nvram << 4u8);
    assert(b[11] == chr_ram | chr_nvram << 4u8);
    assert(b[12] == h.timing_or_default().spec_code());
    assert(b[13] == byte13(h));

    assert(has_signature(b) && b[7] & 0b11u8 == FORMAT_MARKER && console_code(b)
        == console.spec_code()) by {
        console.lemma_code_round_trip();
        lemma_console_byte(m1, console_short_code(console));
        if console.spec_code() >= 3 {
            lemma_low_nibble(console.spec_code());
        }
    }
    assert(Console::spec_from_code(console_code(b)) == Some(console)) by {
        console.lemma_code_round_trip();
    }
    assert(Timing::spec_from_code(b[12] & 0b11u8) == Some(h.timing_or_default())) by {
        h.timing_or_default().lemma_code_round_trip();
        lemma_small_code(h.timing_or_default().spec_code());
    }
    assert(h.is_vs_system() ==> VsSystemPPU::spec_from_code(b[13] & 0xFu8) == Some(ppu)
        && VsSystemHardware::spec_from_code(b[13] >> 4u8) == Some(hardware)) by {
        ppu.lemma_code_round_trip();
        hardware.lemma_code_round_trip();
        if h.is_vs_system() {
            lemma_nibbles(ppu.spec_code(), hardware.spec_code());
        }
    }
    assert(rom_literal(b[4], b[9] & 0xFu8, PRG_UNIT) is Ok && rom_literal(b[5], b[9] >> 4u8, CHR_UNIT) is Ok
        && literal_bytes(rom_literal(b[4], b[9] & 0xFu8, PRG_UNIT)->Ok_0) == literal_bytes(h.prg_rom_size)
        && literal_bytes(rom_literal(b[5], b[9] >> 4u8, CHR_UNIT)->Ok_0) == literal_bytes(h.chr_rom_size)) by {
        lemma_rom_size_round_trip(literal_bytes(h.prg_rom_size)->Ok_0, PRG_UNIT);
        lemma_rom_size_round_trip(literal_bytes(h.chr_rom_size)->Ok_0, CHR_UNIT);
        lemma_nibbles(prg_rom.1, chr_rom.1);
    }
    assert(literal_bytes(ram_literal(b[10] & 0xFu8)) == optional_bytes(h.prg_ram_size)
        && literal_bytes(ram_literal(b[10] >> 4u8)) == optional_bytes(h.prg_nvram_size)) by {
        lemma_ram_size_round_trip(optional_bytes(h.prg_ram_size)->Ok_0);
        lemma_ram_size_round_trip(optional_bytes(h.prg_nvram_size)->Ok_0);
        lemma_nibbles(prg_ram, prg_nvram);
    }
    assert(literal_bytes(ram_literal(b[11] & 0xFu8)) == optional_bytes(h.chr_ram_size)
        && literal_bytes(ram_literal(b[11] >> 4u8)) == optional_bytes(h.chr_nvram_size)) by {
        lemma_ram_size_round_trip(optional_bytes(h.chr_ram_size)->Ok_0);
        lemma_ram_size_round_trip(optional_bytes(h.chr_nvram_size)->Ok_0);
        lemma_nibbles(chr_ram, chr_nvram);
    }
    assert(decoded_mapper(b) == m && (b[8] >> 4u8) as u64 == h.submapper_or_default()) by {
        h.mirroring_or_default().lemma_code_round_trip();
        lemma_flags_byte(m0, mir, bat, tr);
        lemma_console_byte(m1, console_short_code(console));
        lemma_nibbles(m2, sub);
    }
    assert(decoded_mirroring(b[6]) == h.mirroring_or_default() && (b[6] & 0b10u8 != 0)
        == h.battery_or_default() && (b[6] & 0b100u8 != 0) == h.trainer_or_default()) by {
        h.mirroring_or_default().lemma_code_round_trip();
        lemma_flags_byte(m0, mir, bat, tr);
    }
}

/// Decoding what a record encodes to gives back the same header, with every
/// defaulted field made explicit and each size literal naming the same byte
/// count as before.
pub proof fn lemma_decode_encode(h: HeaderView)
    requires
        encoded(h) is Ok,
    ensures
        decoded(encoded(h)->Ok_0) is Ok,
        same_header(decoded(encoded(h)->Ok_0)->Ok_0, h),
        is_explicit(decoded(encoded(h)->Ok_0)->Ok_0),
{
    lemma_encoded_fields(h);
}

/// Two records that describe the same header encode alike.
pub proof fn lemma_encoded_same_header(a: HeaderView, b: HeaderView)
    requires
        same_header(a, b),
    ensures
        encoded(a) == encoded(b),
{
    assert(crate::header::byte13(a) == crate::header::byte13(b));
    if encoded(a) is Ok {
        assert(encoded(a)->Ok_0 =~= encoded(b)->Ok_0);
    }
}

/// Re-encoding the record decoded from an encoded buffer gives the same
/// buffer.
pub proof fn lemma_encode_decode_encode(h: HeaderView)
    requires
        encoded(h) is Ok,
    ensures
        decoded(encoded(h)->Ok_0) is Ok,
        encoded(decoded(encoded(h)->Ok_0)->Ok_0) == encoded(h),
{
    lemma_decode_encode(h);
    lemma_encoded_same_header(decoded(encoded(h)->Ok_0)->Ok_0, h);
}

/// A buffer whose console is not the Vs. System decodes without Vs. System
/// fields, whatever byte 13 holds.
pub proof fn lemma_vs_system_gating(b: Seq<u8>)
    requires
        b.len() == 16,
        decoded(b) is Ok,
        decoded(b)->Ok_0.console != Some(Console::VsSystem),
    ensures
        decoded(b)->Ok_0.vs_system_ppu is None,
        decoded(b)->Ok_0.vs_system_hardware is None,
{
}

/// A buffer without the signature, or without the extended-format marker in
/// bits 0-1 of byte 7, decodes to no record.
pub proof fn lemma_foreign_buffer_rejected(b: Seq<u8>)
    requires
        b.len() == 16,
    ensures
        !has_signature(b) ==> decoded(b) == Err::<HeaderView, HeaderError>(HeaderError::BadSignature),
        has_signature(b) && b[7] & 0b11u8 != FORMAT_MARKER ==> decoded(b) == Err::<
            HeaderView,
            HeaderError,
        >(HeaderError::BadFormatMarker),
{
}

} // verus!
