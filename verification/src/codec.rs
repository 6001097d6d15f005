//! Byte-level primitives of the wire format.
//!
//! Every multi-byte integer is laid out big-endian. Signed integers travel in
//! offset-binary form (the value plus half the type's range), so the byte
//! image of a signed field is the image of a plain unsigned integer and the
//! round-trip proofs stay linear. A string travels as a 16-bit character
//! count followed by one 32-bit Unicode scalar value per character.

use vstd::prelude::*;

verus! {

/// Why a frame failed to decode.
#[derive(Debug, Clone, Copy, PartialEq, Eq, Structural)]
pub enum DecodeError {
    /// The input ended before the field under decode was complete.
    Truncated,
    /// A 32-bit value in a string position is not a Unicode scalar value.
    InvalidChar,
    /// The header names an API key outside the active family's enumeration.
    UnknownApiKey(u16),
    /// Bytes remained after the body selected by the header was decoded.
    TrailingBytes,
}

// ---------------------------------------------------------------------------
// 16-bit unsigned integers
// ---------------------------------------------------------------------------

/// Big-endian image of a 16-bit unsigned integer.
pub open spec fn spec_enc_u16(x: u16) -> Seq<u8> {
    seq![((x >> 8) & 0xFF) as u8, (x & 0xFF) as u8]
}

/// The 16-bit unsigned integer read back from two bytes.
pub open spec fn spec_dec_u16(b0: u8, b1: u8) -> u16 {
    (((b0 as u16) << 8) | (b1 as u16)) as u16
}

/// Decoding undoes encoding for 16-bit unsigned integers.
pub proof fn lemma_u16_round_trip(x: u16)
    ensures
        spec_dec_u16(spec_enc_u16(x)[0], spec_enc_u16(x)[1]) == x,
{
    assert((((((x >> 8) & 0xFF) as u8 as u16) << 8) | ((x & 0xFF) as u8 as u16)) == x)
        by (bit_vector);
}

/// Appends the big-endian image of `x`.
pub fn write_u16(out: &mut Vec<u8>, x: u16)
    ensures
        final(out)@ == old(out)@ + spec_enc_u16(x),
{
    out.push(((x >> 8) & 0xFF) as u8);
    out.push((x & 0xFF) as u8);
    assert(out@ =~= old(out)@ + spec_enc_u16(x));
}

/// Reads the 16-bit unsigned integer stored at `pos`.
pub fn read_u16(buf: &Vec<u8>, pos: usize) -> (r: u16)
    requires
        pos + 2 <= buf@.len(),
    ensures
        r == spec_dec_u16(buf@[pos as int], buf@[pos + 1]),
{
    let _len: usize = buf.len();
    let b0: u8 = buf[pos];
    let b1: u8 = buf[pos + 1];
    ((b0 as u16) << 8) | (b1 as u16)
}

// ---------------------------------------------------------------------------
// 32-bit unsigned integers
// ---------------------------------------------------------------------------

/// Big-endian image of a 32-bit unsigned integer.
pub open spec fn spec_enc_u32(x: u32) -> Seq<u8> {
    seq![
        ((x >> 24) & 0xFF) as u8,
        ((x >> 16) & 0xFF) as u8,
        ((x >> 8) & 0xFF) as u8,
        (x & 0xFF) as u8,
    ]
}

/// The 32-bit unsigned integer read back from four bytes.
pub open spec fn spec_dec_u32(b0: u8, b1: u8, b2: u8, b3: u8) -> u32 {
    (((b0 as u32) << 24) | ((b1 as u32) << 16) | ((b2 as u32) << 8) | (b3 as u32)) as u32
}

/// Decoding undoes encoding for 32-bit unsigned integers.
pub proof fn lemma_u32_round_trip(x: u32)
    ensures
        spec_dec_u32(
            spec_enc_u32(x)[0],
            spec_enc_u32(x)[1],
            spec_enc_u32(x)[2],
            spec_enc_u32(x)[3],
        ) == x,
{
    assert(((((x >> 24) & 0xFF) as u8 as u32) << 24) | ((((x >> 16) & 0xFF) as u8 as u32) << 16)
        | ((((x >> 8) & 0xFF) as u8 as u32) << 8) | ((x & 0xFF) as u8 as u32) == x)
        by (bit_vector);
}

/// Appends the big-endian image of `x`.
pub fn write_u32(out: &mut Vec<u8>, x: u32)
    ensures
        final(out)@ == old(out)@ + spec_enc_u32(x),
{
    out.push(((x >> 24) & 0xFF) as u8);
    out.push(((x >> 16) & 0xFF) as u8);
    out.push(((x >> 8) & 0xFF) as u8);
    out.push((x & 0xFF) as u8);
    assert(out@ =~= old(out)@ + spec_enc_u32(x));
}

/// Reads the 32-bit unsigned integer stored at `pos`.
pub fn read_u32(buf: &Vec<u8>, pos: usize) -> (r: u32)
    requires
        pos + 4 <= buf@.len(),
    ensures
        r == spec_dec_u32(buf@[pos as int], buf@[pos + 1], buf@[pos + 2], buf@[pos + 3]),
{
    let _len: usize = buf.len();
    let b0: u8 = buf[pos];
    let b1: u8 = buf[pos + 1];
    let b2: u8 = buf[pos + 2];
    let b3: u8 = buf[pos + 3];
    ((b0 as u32) << 24) | ((b1 as u32) << 16) | ((b2 as u32) << 8) | (b3 as u32)
}

// ---------------------------------------------------------------------------
// Signed integers in offset-binary form
// ---------------------------------------------------------------------------

/// Offset-binary image of a signed 16-bit integer.
pub open spec fn spec_i16_bits(x: i16) -> u16 {
    (x as int + 0x8000) as u16
}

/// The signed 16-bit integer whose offset-binary image is `u`.
pub open spec fn spec_i16_of_bits(u: u16) -> i16 {
    (u as int - 0x8000) as i16
}

/// The offset-binary map on 16-bit integers is a bijection.
pub proof fn lemma_i16_bits_round_trip(x: i16)
    ensures
        spec_i16_of_bits(spec_i16_bits(x)) == x,
{
}

/// Converts a signed 16-bit integer to its offset-binary image.
pub fn i16_bits(x: i16) -> (r: u16)
    ensures
        r == spec_i16_bits(x),
{
    ((x as i32) + 0x8000) as u16
}

/// Converts an offset-binary image back to the signed 16-bit integer.
pub fn i16_of_bits(u: u16) -> (r: i16)
    ensures
        r == spec_i16_of_bits(u),
{
    ((u as i32) - 0x8000) as i16
}

/// Offset-binary image of a signed 32-bit integer.
pub open spec fn spec_i32_bits(x: i32) -> u32 {
    (x as int + 0x80000000) as u32
}

/// The signed 32-bit integer whose offset-binary image is `u`.
pub open spec fn spec_i32_of_bits(u: u32) -> i32 {
    (u as int - 0x80000000) as i32
}

/// The offset-binary map on 32-bit integers is a bijection.
pub proof fn lemma_i32_bits_round_trip(x: i32)
    ensures
        spec_i32_of_bits(spec_i32_bits(x)) == x,
{
}

/// Converts a signed 32-bit integer to its offset-binary image.
pub fn i32_bits(x: i32) -> (r: u32)
    ensures
        r == spec_i32_bits(x),
{
    ((x as i64) + 0x80000000) as u32
}

/// Converts an offset-binary image back to the signed 32-bit integer.
pub fn i32_of_bits(u: u32) -> (r: i32)
    ensures
        r == spec_i32_of_bits(u),
{
    ((u as i64) - 0x80000000) as i32
}

// ---------------------------------------------------------------------------
// Characters
// ---------------------------------------------------------------------------

/// Whether a 32-bit value is a Unicode scalar value, that is, a value a
/// `char` may hold.
pub open spec fn is_unicode_scalar(v: u32) -> bool {
    v < 0xD800 || (0xE000 <= v && v <= 0x10FFFF)
}

/// Whether every element of a character sequence is a Unicode scalar value.
/// The view of every actual string satisfies this; it names the valid values
/// of a string-typed field.
pub open spec fn wf_chars(cs: Seq<char>) -> bool {
    forall|i: int|
        0 <= i < cs.len() ==> is_unicode_scalar(#[trigger] cs[i] as u32) && ((cs[i] as u32) as char)
            == cs[i]
}

/// Establishes that the view of an actual string holds only Unicode scalar
/// values.
pub fn check_chars(s: &str)
    ensures
        wf_chars(s@),
{
    let n: usize = s.unicode_len();
    let mut i: usize = 0;
    while i < n
        invariant
            n == s@.len(),
            i <= n,
            forall|j: int|
                0 <= j < i ==> is_unicode_scalar(#[trigger] s@[j] as u32) && ((s@[j] as u32)
                    as char) == s@[j],
        decreases n - i,
    {
        let c: char = s.get_char(i);
        assert(is_unicode_scalar(c as u32) && ((c as u32) as char) == c);
        i = i + 1;
    }
}

/// Relies on `char::from_u32` of std: it returns `Some` exactly on Unicode
/// scalar values, and the returned character has the given code point.
#[verifier::external_body]
fn char_from_u32(v: u32) -> (r: Option<char>)
    ensures
        (r is Some) <==> is_unicode_scalar(v),
        r matches Some(c) ==> c as u32 == v && (v as char) == c,
{
    char::from_u32(v)
}

// ---------------------------------------------------------------------------
// Strings: a 16-bit character count, then one 32-bit scalar per character
// ---------------------------------------------------------------------------

/// Byte image of a sequence of characters, four bytes per character.
pub open spec fn spec_enc_chars(cs: Seq<char>) -> Seq<u8>
    decreases cs.len(),
{
    if cs.len() == 0 {
        Seq::empty()
    } else {
        spec_enc_u32(cs[0] as u32) + spec_enc_chars(cs.drop_first())
    }
}

/// Byte image of a string: character count, then the characters.
pub open spec fn spec_enc_string(cs: Seq<char>) -> Seq<u8>
    recommends
        cs.len() <= 0xFFFF,
{
    spec_enc_u16(cs.len() as u16) + spec_enc_chars(cs)
}

/// The characters read back from `n` four-byte groups starting at `pos`.
pub open spec fn spec_parse_chars(s: Seq<u8>, pos: int, n: nat) -> Result<Seq<char>, DecodeError>
    decreases n,
{
    if n == 0 {
        Ok(Seq::empty())
    } else if pos + 4 > s.len() || pos < 0 {
        Err(DecodeError::Truncated)
    } else {
        let v = spec_dec_u32(s[pos], s[pos + 1], s[pos + 2], s[pos + 3]);
        if !is_unicode_scalar(v) {
            Err(DecodeError::InvalidChar)
        } else {
            match spec_parse_chars(s, pos + 4, (n - 1) as nat) {
                Ok(rest) => Ok(seq![v as char] + rest),
                Err(e) => Err(e),
            }
        }
    }
}

/// The string read back from position `pos`: the characters together with the
/// position just past them.
pub open spec fn spec_parse_string(s: Seq<u8>, pos: int) -> Result<(Seq<char>, int), DecodeError> {
    if pos < 0 || pos + 2 > s.len() {
        Err(DecodeError::Truncated)
    } else {
        let n = spec_dec_u16(s[pos], s[pos + 1]);
        match spec_parse_chars(s, pos + 2, n as nat) {
            Ok(cs) => Ok((cs, pos + 2 + 4 * n)),
            Err(e) => Err(e),
        }
    }
}

/// The byte image of `n` characters is `4 * n` bytes long.
pub proof fn lemma_enc_chars_len(cs: Seq<char>)
    ensures
        spec_enc_chars(cs).len() == 4 * cs.len(),
    decreases cs.len(),
{
    if cs.len() > 0 {
        lemma_enc_chars_len(cs.drop_first());
    }
}

/// Encoding one more character appends its four bytes.
pub proof fn lemma_enc_chars_take_step(cs: Seq<char>, i: int)
    requires
        0 <= i < cs.len(),
    ensures
        spec_enc_chars(cs.take(i + 1)) == spec_enc_chars(cs.take(i)) + spec_enc_u32(cs[i] as u32),
    decreases i,
{
    if i == 0 {
        assert(cs.take(1) =~= seq![cs[0]]);
        assert(cs.take(1).drop_first() =~= Seq::empty());
        assert(cs.take(0) =~= Seq::empty());
        assert(spec_enc_chars(cs.take(i + 1)) =~= spec_enc_chars(cs.take(i)) + spec_enc_u32(
            cs[i] as u32,
        ));
    } else {
        lemma_enc_chars_take_step(cs.drop_first(), i - 1);
        assert(cs.take(i + 1).drop_first() =~= cs.drop_first().take(i));
        assert(cs.take(i).drop_first() =~= cs.drop_first().take(i - 1));
        assert(cs.drop_first()[i - 1] == cs[i]);
        assert(spec_enc_chars(cs.take(i + 1)) =~= spec_enc_chars(cs.take(i)) + spec_enc_u32(
            cs[i] as u32,
        ));
    }
}

/// Reading `cs.len()` characters from the byte image of `cs` gives back `cs`,
/// wherever that image stands inside a larger byte sequence.
pub proof fn lemma_parse_chars_of_enc(s: Seq<u8>, pos: int, cs: Seq<char>)
    requires
        0 <= pos,
        pos + 4 * cs.len() <= s.len(),
        s.subrange(pos, pos + 4 * cs.len()) == spec_enc_chars(cs),
        wf_chars(cs),
    ensures
        spec_parse_chars(s, pos, cs.len()) == Ok::<Seq<char>, DecodeError>(cs),
    decreases cs.len(),
{
    if cs.len() == 0 {
        assert(cs =~= Seq::<char>::empty());
    } else {
        let c0 = cs[0];
        let rest = cs.drop_first();
        let enc = spec_enc_chars(cs);
        let len: int = cs.len() as int;
        lemma_enc_chars_len(rest);
        assert(is_unicode_scalar(c0 as u32));
        assert(s.subrange(pos, pos + 4 * len)[0] == s[pos]);
        assert(s.subrange(pos, pos + 4 * len)[1] == s[pos + 1]);
        assert(s.subrange(pos, pos + 4 * len)[2] == s[pos + 2]);
        assert(s.subrange(pos, pos + 4 * len)[3] == s[pos + 3]);
        lemma_u32_round_trip(c0 as u32);
        let v = spec_dec_u32(s[pos], s[pos + 1], s[pos + 2], s[pos + 3]);
        assert(v == c0 as u32);
        assert forall|j: int| 0 <= j < 4 * rest.len() implies #[trigger] s.subrange(
            pos + 4,
            pos + 4 + 4 * rest.len(),
        )[j] == spec_enc_chars(rest)[j] by {
            assert(s.subrange(pos, pos + 4 * len)[4 + j] == s[pos + 4 + j]);
            assert(enc[4 + j] == spec_enc_chars(rest)[j]);
        }
        assert(s.subrange(pos + 4, pos + 4 + 4 * rest.len()) =~= spec_enc_chars(rest));
        assert forall|j: int| 0 <= j < rest.len() implies is_unicode_scalar(
            #[trigger] rest[j] as u32,
        ) && ((rest[j] as u32) as char) == rest[j] by {
            assert(rest[j] == cs[j + 1]);
        }
        lemma_parse_chars_of_enc(s, pos + 4, rest);
        assert(seq![v as char] + rest =~= cs);
    }
}

/// Round trip for whole strings: parsing the byte image of a string, followed
/// by arbitrary further bytes, yields exactly the string and consumes exactly
/// its image.
pub proof fn lemma_parse_string_of_enc(cs: Seq<char>, tail: Seq<u8>)
    requires
        cs.len() <= 0xFFFF,
        wf_chars(cs),
    ensures
        spec_parse_string(spec_enc_string(cs) + tail, 0) == Ok::<_, DecodeError>(
            (cs, spec_enc_string(cs).len() as int),
        ),
{
    let s = spec_enc_string(cs) + tail;
    lemma_enc_chars_len(cs);
    lemma_u16_round_trip(cs.len() as u16);
    assert(s[0] == spec_enc_u16(cs.len() as u16)[0]);
    assert(s[1] == spec_enc_u16(cs.len() as u16)[1]);
    let n = spec_dec_u16(s[0], s[1]);
    assert(n == cs.len());
    assert(s.subrange(2, 2 + 4 * cs.len() as int) =~= spec_enc_chars(cs));
    lemma_parse_chars_of_enc(s, 2, cs);
}

/// Appends the byte image of the string `s`: its character count, then one
/// 32-bit scalar per character.
pub fn write_string(out: &mut Vec<u8>, s: &str)
    requires
        s@.len() <= 0xFFFF,
    ensures
        final(out)@ == old(out)@ + spec_enc_string(s@),
{
    let n: usize = s.unicode_len();
    write_u16(out, n as u16);
    let mut i: usize = 0;
    while i < n
        invariant
            n == s@.len(),
            n <= 0xFFFF,
            i <= n,
            out@ == old(out)@ + spec_enc_u16(n as u16) + spec_enc_chars(s@.take(i as int)),
        decreases n - i,
    {
        let c: char = s.get_char(i);
        write_u32(out, c as u32);
        proof {
            lemma_enc_chars_take_step(s@, i as int);
        }
        i = i + 1;
    }
    assert(s@.take(n as int) =~= s@);
    assert(out@ =~= old(out)@ + spec_enc_string(s@));
}

/// Relies on `String: FromIterator<char>` of std: collecting characters
/// builds the string of exactly those characters in order.
#[verifier::external_body]
fn string_from_chars(cs: Vec<char>) -> (s: String)
    ensures
        s@ == cs@,
{
    cs.into_iter().collect()
}

/// Reads the string stored at `pos`; on success also returns the position
/// just past it.
pub fn read_string(buf: &Vec<u8>, pos: usize) -> (r: Result<(String, usize), DecodeError>)
    ensures
        match r {
            Ok((s, end)) => {
                &&& spec_parse_string(buf@, pos as int) == Ok::<_, DecodeError>(
                    (s@, end as int),
                )
                &&& pos <= end <= buf@.len()
            },
            Err(e) => spec_parse_string(buf@, pos as int) == Err::<(Seq<char>, int), _>(e),
        },
{
    let buf_len: usize = buf.len();
    if pos > buf_len || buf_len - pos < 2 {
        return Err(DecodeError::Truncated);
    }
    let n: u16 = read_u16(buf, pos);
    let ghost start: int = pos as int + 2;
    let mut cs: Vec<char> = Vec::new();
    let mut cur: usize = pos + 2;
    let mut left: u16 = n;
    while left > 0
        invariant
            buf_len == buf@.len(),
            start == pos + 2,
            pos + 2 <= cur <= buf_len,
            cur == start + 4 * (n - left),
            left <= n,
            cs@.len() == n - left,
            n == spec_dec_u16(buf@[pos as int], buf@[pos as int + 1]),
            spec_parse_chars(buf@, start, n as nat) == (match spec_parse_chars(
                buf@,
                cur as int,
                left as nat,
            ) {
                Ok(rest) => Ok::<Seq<char>, DecodeError>(cs@ + rest),
                Err(e) => Err::<Seq<char>, DecodeError>(e),
            }),
        decreases left,
    {
        if buf_len - cur < 4 {
            return Err(DecodeError::Truncated);
        }
        let v: u32 = read_u32(buf, cur);
        match char_from_u32(v) {
            Some(c) => {
                proof {
                    assert(v as char == c);
                    let rest2 = spec_parse_chars(buf@, cur as int + 4, (left - 1) as nat);
                    if rest2 is Ok {
                        assert(cs@ + (seq![v as char] + rest2.unwrap()) =~= (cs@ + seq![c])
                            + rest2.unwrap());
                    }
                }
                let ghost pre_cs: Seq<char> = cs@;
                cs.push(c);
                assert(cs@ =~= pre_cs + seq![c]);
                cur = cur + 4;
                left = left - 1;
            },
            None => {
                return Err(DecodeError::InvalidChar);
            },
        }
    }
    assert(spec_parse_chars(buf@, cur as int, 0) == Ok::<Seq<char>, DecodeError>(Seq::empty()));
    assert(cs@ + Seq::<char>::empty() =~= cs@);
    let s = string_from_chars(cs);
    Ok((s, cur))
}


/// A successful character parse yields exactly the asked-for count.
pub proof fn lemma_parse_chars_len(s: Seq<u8>, pos: int, n: nat)
    ensures
        spec_parse_chars(s, pos, n) matches Ok(cs) ==> cs.len() == n,
    decreases n,
{
    if n != 0 {
        lemma_parse_chars_len(s, pos + 4, (n - 1) as nat);
    }
}

/// A successful string parse yields at most the wire format's maximum
/// character count and consumes two bytes plus four per character.
pub proof fn lemma_parse_string_len(s: Seq<u8>, pos: int)
    ensures
        spec_parse_string(s, pos) matches Ok((cs, end)) ==> cs.len() <= 0xFFFF && end == pos + 2
            + 4 * cs.len(),
{
    if 0 <= pos && pos + 2 <= s.len() {
        let n = spec_dec_u16(s[pos], s[pos + 1]);
        lemma_parse_chars_len(s, pos + 2, n as nat);
    }
}

} // verus!
