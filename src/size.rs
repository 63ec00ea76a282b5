//! Size literals (`"512"`, `"16K"`, `"2M"`) and the binary size fields of the
//! header: the linear or exponent form of ROM sizes and the shift count of
//! RAM sizes.

use vstd::arithmetic::power2::{lemma2_to64, lemma2_to64_rest, lemma_pow2_strictly_increases, pow2};
use vstd::bits::{lemma_u64_pow2_no_overflow, lemma_u64_shl_is_mul};
use vstd::prelude::*;

verus! {

/// Why a size literal or a size field could not be converted.
#[derive(Debug, Clone, Copy, PartialEq, Eq, Structural)]
pub enum SizeError {
    /// The digit part of a literal is not a decimal number that fits in 64 bits.
    InvalidLiteral,
    /// The unit suffix makes the byte count overflow 64 bits.
    Overflow,
    /// The byte count has neither a linear nor an exponent ROM encoding.
    InvalidRomSize(u64),
    /// The byte count is neither 0 nor `64 << count` for a count in 1..=15.
    InvalidRamSize(u64),
    /// An exponent-form ROM size whose exponent is over 60.
    TooLarge(u8),
}

pub const KIB: u64 = 1024;

pub const MIB: u64 = 1048576;

/// Largest unit count of the linear ROM encoding.
pub const MAX_LINEAR_UNITS: u64 = 0xEFF;

/// Exponents tried by the exponent form: `0..EXPONENT_LIMIT`.
pub const EXPONENT_LIMIT: u64 = 60;

const ASCII_ZERO: u8 = 48;

const ASCII_NINE: u8 = 57;

const ASCII_K: u8 = 75;

const ASCII_M: u8 = 77;

pub open spec fn is_digit(c: char) -> bool {
    '0' <= c && c <= '9'
}

pub open spec fn all_digits(s: Seq<char>) -> bool {
    forall|i: int| 0 <= i < s.len() ==> is_digit(#[trigger] s[i])
}

pub open spec fn digit_value(c: char) -> nat {
    ((c as u32) - ('0' as u32)) as nat
}

pub open spec fn digit_char(d: nat) -> char {
    ((d + 48) as u8) as char
}

/// The number that a string of decimal digits denotes.
pub open spec fn digits_value(s: Seq<char>) -> nat
    decreases s.len(),
{
    if s.len() == 0 {
        0
    } else {
        digits_value(s.drop_last()) * 10 + digit_value(s.last())
    }
}

/// The decimal digits of `n`, without leading zeros.
pub open spec fn decimal(n: nat) -> Seq<char>
    decreases n,
{
    if n < 10 {
        seq![digit_char(n)]
    } else {
        decimal(n / 10).push(digit_char(n % 10))
    }
}

/// The number part of a literal and the factor of its unit suffix.
pub open spec fn split_unit(s: Seq<char>) -> (Seq<char>, nat) {
    if s.len() > 0 && s.last() == 'K' {
        (s.drop_last(), KIB as nat)
    } else if s.len() > 0 && s.last() == 'M' {
        (s.drop_last(), MIB as nat)
    } else {
        (s, 1)
    }
}

/// The byte count of a size literal: digits, then optionally `K` (1024) or
/// `M` (1024 * 1024).
pub open spec fn literal_bytes(s: Seq<char>) -> Result<u64, SizeError> {
    let (digits, factor) = split_unit(s);
    if digits.len() == 0 || !all_digits(digits) || digits_value(digits) > u64::MAX {
        Err(SizeError::InvalidLiteral)
    } else if digits_value(digits) * factor > u64::MAX {
        Err(SizeError::Overflow)
    } else {
        Ok((digits_value(digits) * factor) as u64)
    }
}

pub proof fn lemma_digits_value_prefix(s: Seq<char>, n: int)
    requires
        0 <= n <= s.len(),
        all_digits(s),
    ensures
        digits_value(s.take(n)) <= digits_value(s),
    decreases s.len(),
{
    if n < s.len() {
        assert(s.drop_last().take(n) =~= s.take(n));
        lemma_digits_value_prefix(s.drop_last(), n);
    } else {
        assert(s.take(n) =~= s);
    }
}

/// Parses a size literal into a byte count.
pub fn parse_size_as_byte(size: &str) -> (r: Result<u64, SizeError>)
    ensures
        r == literal_bytes(size@),
{
    if !size.is_ascii() {
        proof {
            let i = choose|i: int| 0 <= i < size@.len() && !('\0' <= #[trigger] size@[i] <= '\u{7f}');
            assert(!is_digit(split_unit(size@).0[i]));
        }
        return Err(SizeError::InvalidLiteral);
    }
    let bytes = size.as_bytes();
    proof {
        broadcast use vstd::string::is_ascii_spec_bytes;
        assert(bytes@ =~= Seq::new(size@.len(), |i| size@.index(i) as u8));
    }
    let len = bytes.len();
    let ghost chars = size@;
    let (end, factor): (usize, u64) = if len > 0 && bytes[len - 1] == ASCII_K {
        (len - 1, KIB)
    } else if len > 0 && bytes[len - 1] == ASCII_M {
        (len - 1, MIB)
    } else {
        (len, 1)
    };
    let ghost digits = split_unit(chars).0;
    assert(digits =~= chars.take(end as int));
    if end == 0 {
        return Err(SizeError::InvalidLiteral);
    }
    let mut value: u64 = 0;
    let mut i: usize = 0;
    while i < end
        invariant
            0 <= i <= end <= len,
            len == chars.len(),
            chars == size@,
            bytes@ == Seq::new(chars.len(), |k| chars.index(k) as u8),
            forall|k: int| 0 <= k < chars.len() ==> '\0' <= #[trigger] chars[k] <= '\u{7f}',
            digits == chars.take(end as int),
            digits == split_unit(chars).0,
            factor == split_unit(chars).1,
            all_digits(digits.take(i as int)),
            value == digits_value(digits.take(i as int)),
        decreases end - i,
    {
        let b = bytes[i];
        if b < ASCII_ZERO || b > ASCII_NINE {
            assert(!is_digit(digits[i as int]));
            return Err(SizeError::InvalidLiteral);
        }
        let d = (b - ASCII_ZERO) as u64;
        assert(digits.take(i + 1).drop_last() =~= digits.take(i as int));
        assert(digit_value(digits[i as int]) == d);
        if value > (u64::MAX - d) / 10 {
            proof {
                assert(digits_value(digits.take(i + 1)) > u64::MAX) by (nonlinear_arith)
                    requires
                        value > (u64::MAX - d) / 10,
                        digits_value(digits.take(i + 1)) == value * 10 + d,
                ;
                if all_digits(digits) {
                    lemma_digits_value_prefix(digits, i + 1);
                }
            }
            return Err(SizeError::InvalidLiteral);
        }
        value = value * 10 + d;
        i = i + 1;
        assert(all_digits(digits.take(i as int)));
    }
    assert(digits.take(end as int) =~= digits);
    match value.checked_mul(factor) {
        Some(n) => Ok(n),
        None => Err(SizeError::Overflow),
    }
}

/// Relies on `String::push`: appends one character to the string.
#[verifier::external_body]
fn push_char(s: &mut String, c: char)
    ensures
        final(s)@ == old(s)@.push(c),
{
    s.push(c);
}

/// Appends the decimal digits of `n`.
fn push_decimal(s: &mut String, n: u64)
    ensures
        final(s)@ == old(s)@ + decimal(n as nat),
    decreases n,
{
    let ghost start = s@;
    if n >= 10 {
        push_decimal(s, n / 10);
    }
    push_char(s, ((n % 10) as u8 + ASCII_ZERO) as char);
    assert(s@ =~= start + decimal(n as nat));
}

pub proof fn lemma_digit_char(d: nat)
    requires
        d < 10,
    ensures
        is_digit(digit_char(d)),
        digit_value(digit_char(d)) == d,
{
    assert(digit_char(0) == '0');
    assert(digit_char(9) == '9');
    assert(digit_value('7') == 7);
}

pub proof fn lemma_decimal(n: nat)
    ensures
        decimal(n).len() > 0,
        all_digits(decimal(n)),
        digits_value(decimal(n)) == n,
    decreases n,
{
    lemma_digit_char(n % 10);
    if n >= 10 {
        lemma_decimal(n / 10);
        let s = decimal(n);
        assert(s.drop_last() =~= decimal(n / 10));
        assert(s.last() == digit_char(n % 10));
        assert(digits_value(s) == digits_value(s.drop_last()) * 10 + digit_value(s.last()));
        assert(digits_value(s) == (n / 10) * 10 + n % 10);
    } else {
        let s = decimal(n);
        assert(s.drop_last() =~= Seq::<char>::empty());
        assert(digits_value(s) == digits_value(s.drop_last()) * 10 + digit_value(s.last()));
    }
}

/// A decimal number, optionally followed by a unit suffix, reads back as the
/// byte count it names.
pub proof fn lemma_literal_of_decimal(n: u64)
    ensures
        literal_bytes(decimal(n as nat)) == Ok::<u64, SizeError>(n),
        n * KIB <= u64::MAX ==> literal_bytes(decimal(n as nat).push('K')) == Ok::<u64, SizeError>(
            (n * KIB) as u64,
        ),
        n * MIB <= u64::MAX ==> literal_bytes(decimal(n as nat).push('M')) == Ok::<u64, SizeError>(
            (n * MIB) as u64,
        ),
{
    lemma_decimal(n as nat);
    let s = decimal(n as nat);
    assert(is_digit(s.last()));
    assert(s.last() != 'K' && s.last() != 'M');
    assert(split_unit(s) == (s, 1nat));
    assert(digits_value(s) * 1 == n);
    assert(s.push('K').drop_last() =~= s);
    assert(s.push('M').drop_last() =~= s);
}

/// Whether a ROM byte count is a whole number of linear units
/// (`1024 * unit_size` bytes each) that fits the linear encoding.
pub open spec fn is_linear(bytes: u64, unit_size: u64) -> bool {
    bytes % KIB == 0 && (bytes / KIB) % unit_size == 0 && (bytes / KIB) / unit_size
        <= MAX_LINEAR_UNITS
}

/// The first `(exp, mul)` with `bytes == 2^exp * (2 * mul + 1)`, trying
/// exponents from `e` up to 59 and, for each, multipliers 0 to 3.
pub open spec fn exponent_search(bytes: nat, e: nat) -> Option<(nat, nat)>
    decreases EXPONENT_LIMIT - e,
{
    if e >= EXPONENT_LIMIT {
        None
    } else if bytes == pow2(e) * 1 {
        Some((e, 0))
    } else if bytes == pow2(e) * 3 {
        Some((e, 1))
    } else if bytes == pow2(e) * 5 {
        Some((e, 2))
    } else if bytes == pow2(e) * 7 {
        Some((e, 3))
    } else {
        exponent_search(bytes, e + 1)
    }
}

/// The low byte and high nibble that encode a ROM byte count: the unit count
/// in linear form where it can, else `exp * 4 + mul` with the nibble 0xF.
pub open spec fn rom_code(bytes: u64, unit_size: u64) -> Result<(u8, u8), SizeError> {
    if is_linear(bytes, unit_size) {
        let units = (bytes / KIB) / unit_size;
        Ok(((units % 256) as u8, (units / 256) as u8))
    } else {
        match exponent_search(bytes as nat, 0) {
            Some((e, m)) => Ok(((e * 4 + m) as u8, 0xFu8)),
            None => Err(SizeError::InvalidRomSize(bytes)),
        }
    }
}

pub proof fn lemma_exponent_search_found(bytes: nat, e: nat)
    ensures
        exponent_search(bytes, e) matches Some((x, m)) ==> e <= x < EXPONENT_LIMIT && m <= 3
            && bytes == pow2(x) * (2 * m + 1),
    decreases EXPONENT_LIMIT - e,
{
    if e < EXPONENT_LIMIT {
        lemma_exponent_search_found(bytes, e + 1);
    }
}

/// Encodes a ROM size literal into its low byte and high nibble, `unit_size`
/// being 16 for PRG-ROM and 8 for CHR-ROM.
pub fn decode_rom_size(size: &str, unit_size: u64) -> (r: Result<(u8, u8), SizeError>)
    requires
        unit_size == 8 || unit_size == 16,
    ensures
        r == (match literal_bytes(size@) {
            Ok(bytes) => rom_code(bytes, unit_size),
            Err(e) => Err(e),
        }),
{
    let byte = parse_size_as_byte(size)?;
    if byte % KIB != 0 || (byte / KIB) % unit_size != 0 || (byte / KIB) / unit_size
        > MAX_LINEAR_UNITS {
        let mut exp: u64 = 0;
        while exp < EXPONENT_LIMIT
            invariant
                exp <= EXPONENT_LIMIT,
                literal_bytes(size@) == Ok::<u64, SizeError>(byte),
                !is_linear(byte, unit_size),
                exponent_search(byte as nat, 0) == exponent_search(byte as nat, exp as nat),
            decreases EXPONENT_LIMIT - exp,
        {
            let ghost e = exp as nat;
            proof {
                lemma_u64_pow2_no_overflow(e);
                lemma_u64_shl_is_mul(1, exp);
                lemma2_to64();
                lemma2_to64_rest();
                if e < 59 {
                    lemma_pow2_strictly_increases(e, 59);
                }
            }
            let power = 1u64 << exp;
            let mut mul: u64 = 0;
            while mul <= 3
                invariant
                    exp < EXPONENT_LIMIT,
                    literal_bytes(size@) == Ok::<u64, SizeError>(byte),
                    e == exp,
                    power == pow2(e),
                    power <= 0x800_0000_0000_0000,
                    mul <= 4,
                    !is_linear(byte, unit_size),
                    exponent_search(byte as nat, 0) == exponent_search(byte as nat, e),
                    mul > 0 ==> byte != pow2(e) * 1,
                    mul > 1 ==> byte != pow2(e) * 3,
                    mul > 2 ==> byte != pow2(e) * 5,
                    mul > 3 ==> byte != pow2(e) * 7,
                decreases 4 - mul,
            {
                assert(power * (mul * 2 + 1) <= 0x800_0000_0000_0000 * 7) by (nonlinear_arith)
                    requires
                        power <= 0x800_0000_0000_0000,
                        mul <= 3,
                ;
                if byte == power * (mul * 2 + 1) {
                    assert(exponent_search(byte as nat, e) == Some((e, mul as nat)));
                    let lsb = (exp * 4 + mul) as u8;
                    return Ok((lsb, 0xF));
                }
                mul = mul + 1;
            }
            assert(exponent_search(byte as nat, e) == exponent_search(byte as nat, e + 1));
            exp = exp + 1;
        }
        Err(SizeError::InvalidRomSize(byte))
    } else {
        let units = (byte / KIB) / unit_size;
        Ok(((units % 256) as u8, (units / 256) as u8))
    }
}

/// The byte count that a RAM shift count stands for.
pub open spec fn ram_bytes(count: nat) -> nat {
    if count == 0 {
        0
    } else {
        64 * pow2(count)
    }
}

/// The first count from `c` up to 15 whose RAM size is `bytes`.
pub open spec fn ram_search(bytes: nat, c: nat) -> Option<nat>
    decreases 16 - c,
{
    if c > 15 {
        None
    } else if bytes == ram_bytes(c) {
        Some(c)
    } else {
        ram_search(bytes, c + 1)
    }
}

/// The shift count that encodes a RAM byte count.
pub open spec fn ram_code(bytes: u64) -> Result<u8, SizeError> {
    match ram_search(bytes as nat, 0) {
        Some(c) => Ok(c as u8),
        None => Err(SizeError::InvalidRamSize(bytes)),
    }
}

pub proof fn lemma_ram_search_found(bytes: nat, c: nat)
    ensures
        ram_search(bytes, c) matches Some(x) ==> c <= x <= 15 && bytes == ram_bytes(x),
    decreases 16 - c,
{
    if c <= 15 {
        lemma_ram_search_found(bytes, c + 1);
    }
}

/// Encodes a RAM size literal into its shift count.
pub fn decode_ram_size(size: &str) -> (r: Result<u8, SizeError>)
    ensures
        r == (match literal_bytes(size@) {
            Ok(bytes) => ram_code(bytes),
            Err(e) => Err(e),
        }),
{
    let bytes = parse_size_as_byte(size)?;
    let mut count: u64 = 0;
    while count <= 0xF
        invariant
            count <= 16,
            literal_bytes(size@) == Ok::<u64, SizeError>(bytes),
            ram_search(bytes as nat, 0) == ram_search(bytes as nat, count as nat),
        decreases 16 - count,
    {
        proof {
            lemma2_to64();
            if count > 0 {
                lemma_u64_shl_is_mul(64, count);
            }
        }
        if (count == 0 && bytes == 0) || (count > 0 && (64u64 << count) == bytes) {
            return Ok(count as u8);
        }
        count = count + 1;
    }
    Err(SizeError::InvalidRamSize(bytes))
}

/// The literal for a ROM size field: the exponent form as a plain byte count,
/// the linear form in `M` where the size is whole mebibytes, else in `K`.
pub open spec fn rom_literal(lsb: u8, msb: u8, unit_size: u64) -> Result<Seq<char>, SizeError> {
    if msb == 0xF {
        let exp = lsb / 4;
        let mul = lsb % 4;
        if exp > EXPONENT_LIMIT {
            Err(SizeError::TooLarge(exp))
        } else {
            Ok(decimal(pow2(exp as nat) * (2 * mul + 1) as nat))
        }
    } else {
        let kib = (lsb + 256 * msb) * unit_size;
        if kib % 1024 == 0 {
            Ok(decimal((kib / 1024) as nat).push('M'))
        } else {
            Ok(decimal(kib as nat).push('K'))
        }
    }
}

/// The literal for a RAM shift count: in `K` where the size is whole
/// kibibytes, else a plain byte count.
pub open spec fn ram_literal(count: u8) -> Seq<char> {
    let n = ram_bytes(count as nat);
    if n % 1024 == 0 {
        decimal(n / 1024).push('K')
    } else {
        decimal(n)
    }
}

/// Renders a ROM size field (low byte, high nibble) as a size literal.
pub fn encode_rom_size(lsb: u8, msb: u8, unit_size: u64) -> (r: Result<String, SizeError>)
    requires
        msb <= 0xF,
        unit_size == 8 || unit_size == 16,
    ensures
        match r {
            Ok(s) => rom_literal(lsb, msb, unit_size) == Ok::<Seq<char>, SizeError>(s@),
            Err(e) => rom_literal(lsb, msb, unit_size) == Err::<Seq<char>, SizeError>(e),
        },
{
    let mut text = String::new();
    if msb == 0xF {
        let exp = lsb / 4;
        let mul = (lsb % 4) as u64;
        if exp as u64 > EXPONENT_LIMIT {
            return Err(SizeError::TooLarge(exp));
        }
        proof {
            lemma_u64_pow2_no_overflow(exp as nat);
            lemma_u64_shl_is_mul(1, exp as u64);
            lemma2_to64();
            lemma2_to64_rest();
            if exp < 60 {
                lemma_pow2_strictly_increases(exp as nat, 60);
            }
            assert(pow2(exp as nat) * (2 * mul + 1) <= 0x1000_0000_0000_0000 * 7) by (nonlinear_arith)
                requires
                    pow2(exp as nat) <= 0x1000_0000_0000_0000,
                    mul <= 3,
            ;
        }
        let bytes = (1u64 << exp as u64) * (2 * mul + 1);
        push_decimal(&mut text, bytes);
    } else {
        let units = lsb as u64 | (msb as u64) << 8u64;
        assert(units == lsb + 256 * msb) by (bit_vector)
            requires
                msb <= 0xF,
                units == lsb as u64 | (msb as u64) << 8u64,
        ;
        let size = units * unit_size;
        if size % 1024 == 0 {
            push_decimal(&mut text, size / 1024);
            push_char(&mut text, 'M');
        } else {
            push_decimal(&mut text, size);
            push_char(&mut text, 'K');
        }
    }
    Ok(text)
}

/// Renders a RAM shift count as a size literal.
pub fn encode_ram_size(count: u8) -> (r: String)
    requires
        count <= 0xF,
    ensures
        r@ == ram_literal(count),
{
    let mut text = String::new();
    let size: u64 = if count == 0 {
        0
    } else {
        proof {
            lemma2_to64();
            lemma_u64_shl_is_mul(64, count as u64);
        }
        64u64 << count as u64
    };
    if size % 1024 == 0 {
        push_decimal(&mut text, size / 1024);
        push_char(&mut text, 'K');
    } else {
        push_decimal(&mut text, size);
    }
    text
}

/// A ROM size that encodes renders back to a literal with the same byte count.
pub proof fn lemma_rom_size_round_trip(bytes: u64, unit_size: u64)
    requires
        unit_size == 8 || unit_size == 16,
        rom_code(bytes, unit_size) is Ok,
    ensures
        ({
            let (lsb, msb) = rom_code(bytes, unit_size)->Ok_0;
            &&& msb <= 0xF
            &&& rom_literal(lsb, msb, unit_size) is Ok
            &&& literal_bytes(rom_literal(lsb, msb, unit_size)->Ok_0) == Ok::<u64, SizeError>(bytes)
        }),
{
    let (lsb, msb) = rom_code(bytes, unit_size)->Ok_0;
    if is_linear(bytes, unit_size) {
        let units = (bytes / KIB) / unit_size;
        assert(lsb + 256 * msb == units);
        let kib = units * unit_size;
        assert(kib * 1024 == bytes);
        if kib % 1024 == 0 {
            lemma_literal_of_decimal((kib / 1024) as u64);
        } else {
            lemma_literal_of_decimal(kib as u64);
        }
    } else {
        lemma_exponent_search_found(bytes as nat, 0);
        let (e, m) = exponent_search(bytes as nat, 0)->Some_0;
        assert(lsb / 4 == e && lsb % 4 == m);
        lemma_literal_of_decimal(bytes);
    }
}

/// A RAM size that encodes renders back to a literal with the same byte count.
pub proof fn lemma_ram_size_round_trip(bytes: u64)
    requires
        ram_code(bytes) is Ok,
    ensures
        ram_code(bytes)->Ok_0 <= 0xF,
        literal_bytes(ram_literal(ram_code(bytes)->Ok_0)) == Ok::<u64, SizeError>(bytes),
{
    lemma_ram_search_found(bytes as nat, 0);
    let n = bytes;
    if n % 1024 == 0 {
        lemma_literal_of_decimal(n / 1024);
    } else {
        lemma_literal_of_decimal(n);
    }
}

} // verus!
