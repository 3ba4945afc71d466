//! Text as the clipboard stores it: zero-terminated buffers of UTF-8 bytes or
//! of UTF-16 code units, and their conversion from and to strings.
use vstd::prelude::*;
use vstd::std_specs::iter::IteratorSpec;
use vstd::string::*;
use vstd::utf8::*;

verus! {

/// The part of `s` in front of the first occurrence of `stop`; all of `s`
/// where `stop` does not occur.
pub open spec fn before_first<T>(s: Seq<T>, stop: T) -> Seq<T>
    decreases s.len(),
{
    if s.len() == 0 || s[0] == stop {
        Seq::empty()
    } else {
        seq![s[0]] + before_first(s.drop_first(), stop)
    }
}

/// `before_first` is the prefix that ends where `stop` first occurs.
pub proof fn lemma_before_first_prefix<T>(s: Seq<T>, stop: T, n: int)
    requires
        0 <= n <= s.len(),
        forall|j: int| 0 <= j < n ==> s[j] != stop,
        n == s.len() || s[n] == stop,
    ensures
        before_first(s, stop) == s.subrange(0, n),
    decreases n,
{
    if n == 0 {
        assert(s.subrange(0, 0) =~= Seq::<T>::empty());
    } else {
        let rest = s.drop_first();
        assert forall|j: int| 0 <= j < n - 1 implies rest[j] != stop by {
            assert(rest[j] == s[j + 1]);
        }
        lemma_before_first_prefix(rest, stop, n - 1);
        assert(s.subrange(0, n) =~= seq![s[0]] + rest.subrange(0, n - 1));
    }
}

/// A sequence without `stop` is its own `before_first`, also with `stop`
/// appended.
pub proof fn lemma_before_first_terminated<T>(s: Seq<T>, stop: T)
    requires
        !s.contains(stop),
    ensures
        before_first(s.push(stop), stop) == s,
        before_first(s, stop) == s,
{
    let t = s.push(stop);
    assert forall|j: int| 0 <= j < s.len() implies t[j] != stop && s[j] != stop by {
        assert(s.contains(s[j]));
    }
    lemma_before_first_prefix(t, stop, s.len() as int);
    lemma_before_first_prefix(s, stop, s.len() as int);
    assert(t.subrange(0, s.len() as int) =~= s);
    assert(s.subrange(0, s.len() as int) =~= s);
}

/// The text that a zero-terminated UTF-8 buffer holds: the bytes in front of
/// the first zero byte, decoded; `None` where they are not UTF-8.
pub open spec fn c_text(bytes: Seq<u8>) -> Option<Seq<char>> {
    let body = before_first(bytes, 0u8);
    if valid_utf8(body) {
        Some(decode_utf8(body))
    } else {
        None
    }
}

/// The zero-terminated UTF-8 buffer for `text`.
pub open spec fn c_bytes(text: Seq<char>) -> Seq<u8> {
    encode_utf8(text).push(0u8)
}

/// `String::from_utf8` of std: succeeds exactly on well-formed UTF-8, and the
/// string it gives is the one whose UTF-8 encoding is `bytes`.
#[verifier::external_body]
fn string_from_utf8(bytes: Vec<u8>) -> (text: Option<String>)
    ensures
        text is Some <==> valid_utf8(bytes@),
        text matches Some(s) ==> encode_utf8(s@) == bytes@,
{
    String::from_utf8(bytes).ok()
}

/// Copies the bytes in front of the first zero byte.
fn bytes_before_nul(bytes: &Vec<u8>) -> (body: Vec<u8>)
    ensures
        body@ == before_first(bytes@, 0u8),
{
    let mut body: Vec<u8> = Vec::new();
    let mut i: usize = 0;
    while i < bytes.len() && bytes[i] != 0
        invariant
            i <= bytes.len(),
            body@ == bytes@.subrange(0, i as int),
            forall|j: int| 0 <= j < i ==> bytes@[j] != 0u8,
        decreases bytes.len() - i,
    {
        body.push(bytes[i]);
        i += 1;
        assert(body@ =~= bytes@.subrange(0, i as int));
    }
    proof {
        lemma_before_first_prefix(bytes@, 0u8, i as int);
    }
    body
}

/// Reads a zero-terminated UTF-8 buffer as text.
pub fn decode_text(bytes: &Vec<u8>) -> (text: Option<String>)
    ensures
        match text {
            Some(s) => c_text(bytes@) == Some(s@),
            None => c_text(bytes@) is None,
        },
{
    let body = bytes_before_nul(bytes);
    let text = string_from_utf8(body);
    proof {
        if text is Some {
            encode_utf8_decode_utf8(text->0@);
        }
    }
    text
}

/// Writes `text` as a zero-terminated UTF-8 buffer.
pub fn encode_text(text: &str) -> (bytes: Vec<u8>)
    ensures
        bytes@ == c_bytes(text@),
{
    let mut bytes = text.as_bytes_vec();
    bytes.push(0);
    bytes
}

/// A code unit from the range of high (leading) surrogates.
pub open spec fn is_high_surrogate(unit: u16) -> bool {
    0xD800 <= unit <= 0xDBFF
}

/// A code unit from the range of low (trailing) surrogates.
pub open spec fn is_low_surrogate(unit: u16) -> bool {
    0xDC00 <= unit <= 0xDFFF
}

/// The scalar value that a surrogate pair stands for.
pub open spec fn surrogate_pair_scalar(high: u16, low: u16) -> u32 {
    (0x10000 + (high - 0xD800) * 0x400 + (low - 0xDC00)) as u32
}

/// The UTF-16 code units of one scalar value.
pub open spec fn utf16_of_scalar(scalar: u32) -> Seq<u16> {
    if scalar < 0x10000 {
        seq![scalar as u16]
    } else {
        seq![
            (0xD800 + (scalar - 0x10000) / 0x400) as u16,
            (0xDC00 + (scalar - 0x10000) % 0x400) as u16,
        ]
    }
}

/// The UTF-16 encoding of `chars`.
pub open spec fn encode_utf16(chars: Seq<char>) -> Seq<u16>
    decreases chars.len(),
{
    if chars.len() == 0 {
        Seq::empty()
    } else {
        utf16_of_scalar(chars[0] as u32) + encode_utf16(chars.drop_first())
    }
}

/// `Some(head + tail)` where a tail was decoded, else `None`.
pub open spec fn prepend(head: Seq<char>, tail: Option<Seq<char>>) -> Option<Seq<char>> {
    match tail {
        Some(rest) => Some(head + rest),
        None => None,
    }
}

/// The characters that `units` encode in UTF-16; `None` where a surrogate
/// stands without its partner.
pub open spec fn decode_utf16(units: Seq<u16>) -> Option<Seq<char>>
    decreases units.len(),
{
    if units.len() == 0 {
        Some(Seq::empty())
    } else if !is_high_surrogate(units[0]) && !is_low_surrogate(units[0]) {
        prepend(seq![units[0] as u32 as char], decode_utf16(units.skip(1)))
    } else if is_high_surrogate(units[0]) && units.len() >= 2 && is_low_surrogate(units[1]) {
        prepend(
            seq![surrogate_pair_scalar(units[0], units[1]) as char],
            decode_utf16(units.skip(2)),
        )
    } else {
        None
    }
}

/// Decoding undoes encoding.
pub proof fn lemma_utf16_round_trip(chars: Seq<char>)
    ensures
        decode_utf16(encode_utf16(chars)) == Some(chars),
    decreases chars.len(),
{
    if chars.len() > 0 {
        let c = chars[0];
        let v = c as u32;
        let rest = chars.drop_first();
        let units = encode_utf16(chars);
        char_is_scalar(c);
        lemma_utf16_round_trip(rest);
        if v < 0x10000 {
            assert(units.skip(1) =~= encode_utf16(rest));
            char_u32_cast(c, units[0] as u32);
        } else {
            assert(units.skip(2) =~= encode_utf16(rest));
            assert(surrogate_pair_scalar(units[0], units[1]) == v);
            char_u32_cast(c, v);
        }
        assert(seq![c] + rest =~= chars);
    }
}

/// Text without the character U+0000 has no zero unit in its encoding.
pub proof fn lemma_utf16_no_zero_unit(chars: Seq<char>)
    requires
        !chars.contains('\0'),
    ensures
        !encode_utf16(chars).contains(0u16),
    decreases chars.len(),
{
    if chars.len() > 0 {
        let rest = chars.drop_first();
        let head = utf16_of_scalar(chars[0] as u32);
        assert(chars.contains(chars[0]));
        assert forall|j: int| 0 <= j < rest.len() implies rest[j] != '\0' by {
            assert(chars.contains(chars[j + 1]));
        }
        lemma_utf16_no_zero_unit(rest);
        let tail = encode_utf16(rest);
        assert forall|j: int| 0 <= j < (head + tail).len() implies (head + tail)[j] != 0u16 by {
            if j >= head.len() {
                assert(tail.contains(tail[j - head.len()]));
            } else {
                char_is_scalar(chars[0]);
                if chars[0] as u32 == 0 {
                    char_u32_cast(chars[0], 0u32);
                    char_u32_cast('\0', 0u32);
                }
            }
        }
    }
}

/// Appending a character appends its UTF-8 encoding.
pub proof fn lemma_encode_utf8_push(chars: Seq<char>, c: char)
    ensures
        encode_utf8(chars.push(c)) == encode_utf8(chars) + encode_scalar(c as u32),
    decreases chars.len(),
{
    let longer = chars.push(c);
    if chars.len() == 0 {
        assert(longer.drop_first() =~= chars);
        assert(encode_utf8(chars) =~= Seq::<u8>::empty());
        assert(longer[0] == c);
        assert(encode_utf8(longer) =~= encode_utf8(chars) + encode_scalar(c as u32));
    } else {
        assert(longer.drop_first() =~= chars.drop_first().push(c));
        lemma_encode_utf8_push(chars.drop_first(), c);
        assert(encode_utf8(longer) =~= encode_utf8(chars) + encode_scalar(c as u32));
    }
}

/// Appends the UTF-8 encoding of one scalar value.
fn push_scalar(out: &mut Vec<u8>, scalar: u32)
    requires
        is_scalar(scalar),
    ensures
        final(out)@ == old(out)@ + encode_scalar(scalar),
{
    if scalar <= 0x7F {
        assert(scalar & 0x7F < 0x100) by (bit_vector);
        out.push((scalar & 0x7F) as u8);
    } else if scalar <= 0x7FF {
        assert((scalar >> 6) & 0x1F < 0x100 && scalar & 0x3F < 0x100) by (bit_vector);
        out.push(0xC0 | ((scalar >> 6) & 0x1F) as u8);
        out.push(0x80 | (scalar & 0x3F) as u8);
    } else if scalar <= 0xFFFF {
        assert((scalar >> 12) & 0x0F < 0x100 && (scalar >> 6) & 0x3F < 0x100 && scalar & 0x3F
            < 0x100) by (bit_vector);
        out.push(0xE0 | ((scalar >> 12) & 0x0F) as u8);
        out.push(0x80 | ((scalar >> 6) & 0x3F) as u8);
        out.push(0x80 | (scalar & 0x3F) as u8);
    } else {
        assert((scalar >> 18) & 0x7 < 0x100 && (scalar >> 12) & 0x3F < 0x100 && (scalar >> 6)
            & 0x3F < 0x100 && scalar & 0x3F < 0x100) by (bit_vector);
        out.push(0xF0 | ((scalar >> 18) & 0x7) as u8);
        out.push(0x80 | ((scalar >> 12) & 0x3F) as u8);
        out.push(0x80 | ((scalar >> 6) & 0x3F) as u8);
        out.push(0x80 | (scalar & 0x3F) as u8);
    }
    assert(out@ =~= old(out)@ + encode_scalar(scalar));
}

/// Transcodes UTF-16 code units to UTF-8 bytes; `None` where a surrogate
/// stands without its partner.
fn utf16_to_utf8(units: &Vec<u16>) -> (bytes: Option<Vec<u8>>)
    ensures
        match bytes {
            Some(b) => decode_utf16(units@) matches Some(chars) && b@ == encode_utf8(chars),
            None => decode_utf16(units@) is None,
        },
{
    let mut out: Vec<u8> = Vec::new();
    let ghost mut done: Seq<char> = Seq::empty();
    let mut i: usize = 0;
    assert(units@.skip(0) =~= units@);
    assert(Seq::<char>::empty() + decode_utf16(units@)->0 =~= decode_utf16(units@)->0);
    while i < units.len()
        invariant
            i <= units.len(),
            out@ == encode_utf8(done),
            decode_utf16(units@) == prepend(done, decode_utf16(units@.skip(i as int))),
        decreases units.len() - i,
    {
        let ghost rest = units@.skip(i as int);
        let unit = units[i];
        assert(rest[0] == unit);
        if unit < 0xD800 || unit > 0xDFFF {
            let scalar: u32 = unit as u32;
            push_scalar(&mut out, scalar);
            proof {
                let c = scalar as char;
                lemma_encode_utf8_push(done, c);
                assert(rest.skip(1) =~= units@.skip(i + 1));
                assert(forall|tail: Seq<char>| done + (seq![c] + tail) =~= done.push(c) + tail);
                done = done.push(c);
            }
            i += 1;
        } else if unit <= 0xDBFF && i + 1 < units.len() && 0xDC00 <= units[i + 1] && units[i + 1]
            <= 0xDFFF {
            let low = units[i + 1];
            assert(rest[1] == low);
            let scalar: u32 = 0x10000 + (unit - 0xD800) as u32 * 0x400 + (low - 0xDC00) as u32;
            push_scalar(&mut out, scalar);
            proof {
                let c = scalar as char;
                lemma_encode_utf8_push(done, c);
                assert(rest.skip(2) =~= units@.skip(i + 2));
                assert(forall|tail: Seq<char>| done + (seq![c] + tail) =~= done.push(c) + tail);
                done = done.push(c);
            }
            i += 2;
        } else {
            return None;
        }
    }
    assert(done + Seq::<char>::empty() =~= done);
    Some(out)
}

/// The code units that a buffer of bytes holds, two bytes to a unit with the
/// low byte first; a last odd byte belongs to no unit.
pub open spec fn units_of_bytes(bytes: Seq<u8>) -> Seq<u16> {
    Seq::new((bytes.len() / 2) as nat, |i: int| (bytes[2 * i] + 0x100 * bytes[2 * i + 1]) as u16)
}

/// The bytes of `units`, two to a unit with the low byte first.
pub open spec fn bytes_of_units(units: Seq<u16>) -> Seq<u8> {
    Seq::new(
        2 * units.len(),
        |i: int|
            if i % 2 == 0 {
                (units[i / 2] % 0x100) as u8
            } else {
                (units[i / 2] / 0x100) as u8
            },
    )
}

/// The text that a zero-terminated UTF-16 buffer holds: the code units in
/// front of the first zero unit, decoded; `None` where they are not UTF-16.
pub open spec fn wide_text(bytes: Seq<u8>) -> Option<Seq<char>> {
    decode_utf16(before_first(units_of_bytes(bytes), 0u16))
}

/// The zero-terminated UTF-16 buffer for `text`.
pub open spec fn wide_bytes(text: Seq<char>) -> Seq<u8> {
    bytes_of_units(encode_utf16(text).push(0u16))
}

/// Reading the units of a buffer written from units gives them back.
pub proof fn lemma_units_round_trip(units: Seq<u16>)
    ensures
        units_of_bytes(bytes_of_units(units)) == units,
{
    let bytes = bytes_of_units(units);
    assert(units_of_bytes(bytes) =~= units) by {
        assert forall|i: int| 0 <= i < units.len() implies units_of_bytes(bytes)[i]
            == units[i] by {
            assert(bytes[2 * i] == (units[i] % 0x100) as u8);
            assert(bytes[2 * i + 1] == (units[i] / 0x100) as u8);
        }
    }
}

/// Collects the code units in front of the first zero unit.
fn units_before_nul(bytes: &Vec<u8>) -> (units: Vec<u16>)
    ensures
        units@ == before_first(units_of_bytes(bytes@), 0u16),
{
    let n = bytes.len() / 2;
    let ghost all = units_of_bytes(bytes@);
    let mut units: Vec<u16> = Vec::new();
    let mut i: usize = 0;
    let mut stop = false;
    while i < n && !stop
        invariant
            i <= n,
            n == bytes.len() / 2,
            all == units_of_bytes(bytes@),
            units@ == all.subrange(0, i as int),
            forall|j: int| 0 <= j < i ==> all[j] != 0u16,
            stop ==> i < n && all[i as int] == 0u16,
        decreases n - i + (if stop { 0int } else { 1int }),
    {
        let unit: u16 = bytes[2 * i] as u16 + 0x100 * (bytes[2 * i + 1] as u16);
        assert(unit == all[i as int]);
        if unit == 0 {
            stop = true;
        } else {
            units.push(unit);
            i += 1;
            assert(units@ =~= all.subrange(0, i as int));
        }
    }
    proof {
        lemma_before_first_prefix(all, 0u16, i as int);
    }
    units
}

/// Reads a zero-terminated UTF-16 buffer as text.
pub fn decode_wide_text(bytes: &Vec<u8>) -> (text: Option<String>)
    ensures
        match text {
            Some(s) => wide_text(bytes@) == Some(s@),
            None => wide_text(bytes@) is None,
        },
{
    let units = units_before_nul(bytes);
    match utf16_to_utf8(&units) {
        Some(utf8) => {
            proof {
                encode_utf8_valid_utf8(decode_utf16(units@)->0);
            }
            let text = string_from_utf8(utf8);
            proof {
                encode_utf8_decode_utf8(text->0@);
                encode_utf8_decode_utf8(decode_utf16(units@)->0);
            }
            text
        },
        None => None,
    }
}

/// The UTF-16 code units of `text`.
fn utf16_units(text: &str) -> (units: Vec<u16>)
    ensures
        units@ == encode_utf16(text@),
{
    broadcast use group_string_axioms;

    let mut units: Vec<u16> = Vec::new();
    let mut chars = text.chars();
    loop
        invariant
            chars.decrease() is Some,
            units@ + encode_utf16(chars.remaining()) == encode_utf16(text@),
        ensures
            units@ == encode_utf16(text@),
        decreases chars.decrease()->0,
    {
        let ghost before = chars.remaining();
        match chars.next() {
            Some(c) => {
                let scalar: u32 = c as u32;
                proof {
                    char_is_scalar(c);
                }
                let ghost start = units@;
                if scalar < 0x10000 {
                    units.push(scalar as u16);
                } else {
                    units.push((0xD800 + (scalar - 0x10000) / 0x400) as u16);
                    units.push((0xDC00 + (scalar - 0x10000) % 0x400) as u16);
                }
                assert(units@ =~= start + utf16_of_scalar(scalar));
                assert(units@ + encode_utf16(chars.remaining()) =~= start + encode_utf16(before));
            },
            None => {
                assert(units@ + encode_utf16(before) =~= units@);
                break ;
            },
        }
    }
    units
}

/// Writes `text` as a zero-terminated UTF-16 buffer.
pub fn encode_wide_text(text: &str) -> (bytes: Vec<u8>)
    ensures
        bytes@ == wide_bytes(text@),
{
    let mut units = utf16_units(text);
    units.push(0);
    let mut bytes: Vec<u8> = Vec::new();
    let mut i: usize = 0;
    while i < units.len()
        invariant
            i <= units.len(),
            bytes@ == bytes_of_units(units@.subrange(0, i as int)),
        decreases units.len() - i,
    {
        let unit = units[i];
        bytes.push((unit % 0x100) as u8);
        bytes.push((unit / 0x100) as u8);
        i += 1;
        assert(bytes@ =~= bytes_of_units(units@.subrange(0, i as int)));
    }
    assert(units@.subrange(0, i as int) =~= units@);
    bytes
}

/// No byte of the UTF-8 encoding of a scalar value other than zero is zero.
proof fn lemma_scalar_bytes_not_zero(scalar: u32)
    by (bit_vector)
    requires
        scalar != 0,
    ensures
        scalar <= 0x7F ==> (scalar & 0x7F) as u8 != 0,
        0xC0u8 | ((scalar >> 6) & 0x1F) as u8 != 0,
        0xE0u8 | ((scalar >> 12) & 0x0F) as u8 != 0,
        0xF0u8 | ((scalar >> 18) & 0x7) as u8 != 0,
        0x80u8 | ((scalar >> 12) & 0x3F) as u8 != 0,
        0x80u8 | ((scalar >> 6) & 0x3F) as u8 != 0,
        0x80u8 | (scalar & 0x3F) as u8 != 0,
{
}

/// Text without the character U+0000 has no zero byte in its encoding.
pub proof fn lemma_utf8_no_zero_byte(chars: Seq<char>)
    requires
        !chars.contains('\0'),
    ensures
        !encode_utf8(chars).contains(0u8),
    decreases chars.len(),
{
    if chars.len() > 0 {
        let rest = chars.drop_first();
        let scalar = chars[0] as u32;
        let head = encode_scalar(scalar);
        assert(chars.contains(chars[0]));
        assert forall|j: int| 0 <= j < rest.len() implies rest[j] != '\0' by {
            assert(chars.contains(chars[j + 1]));
        }
        lemma_utf8_no_zero_byte(rest);
        if scalar == 0 {
            char_u32_cast(chars[0], 0u32);
            char_u32_cast('\0', 0u32);
        }
        lemma_scalar_bytes_not_zero(scalar);
        let tail = encode_utf8(rest);
        assert forall|j: int| 0 <= j < (head + tail).len() implies (head + tail)[j] != 0u8 by {
            if j >= head.len() {
                assert(tail.contains(tail[j - head.len()]));
            }
        }
    }
}

/// A zero-terminated UTF-8 buffer written from text without U+0000 reads back
/// as that text.
pub proof fn lemma_c_text_round_trip(text: Seq<char>)
    requires
        !text.contains('\0'),
    ensures
        c_text(c_bytes(text)) == Some(text),
{
    lemma_utf8_no_zero_byte(text);
    lemma_before_first_terminated(encode_utf8(text), 0u8);
    encode_utf8_valid_utf8(text);
    encode_utf8_decode_utf8(text);
}

/// A zero-terminated UTF-16 buffer written from text without U+0000 reads back
/// as that text.
pub proof fn lemma_wide_text_round_trip(text: Seq<char>)
    requires
        !text.contains('\0'),
    ensures
        wide_text(wide_bytes(text)) == Some(text),
{
    let units = encode_utf16(text);
    lemma_units_round_trip(units.push(0u16));
    lemma_utf16_no_zero_unit(text);
    lemma_before_first_terminated(units, 0u16);
    lemma_utf16_round_trip(text);
}

/// Whether two strings hold the same characters.
pub fn str_eq(a: &str, b: &str) -> (equal: bool)
    ensures
        equal == (a@ == b@),
{
    let x = a.as_bytes();
    let y = b.as_bytes();
    proof {
        encode_utf8_decode_utf8(a@);
        encode_utf8_decode_utf8(b@);
    }
    if x.len() != y.len() {
        return false;
    }
    let mut i: usize = 0;
    while i < x.len()
        invariant
            i <= x.len(),
            x.len() == y.len(),
            x@ == encode_utf8(a@),
            y@ == encode_utf8(b@),
            decode_utf8(encode_utf8(a@)) == a@,
            decode_utf8(encode_utf8(b@)) == b@,
            forall|j: int| 0 <= j < i ==> x@[j] == y@[j],
        decreases x.len() - i,
    {
        if x[i] != y[i] {
            return false;
        }
        i += 1;
    }
    assert(x@ =~= y@);
    true
}

/// Reads a buffer of UTF-8 bytes as text; `None` where it is not UTF-8.
pub fn decode_utf8_text(bytes: &Vec<u8>) -> (text: Option<String>)
    ensures
        match text {
            Some(s) => valid_utf8(bytes@) && s@ == decode_utf8(bytes@),
            None => !valid_utf8(bytes@),
        },
{
    let text = string_from_utf8(bytes.clone());
    proof {
        if text is Some {
            encode_utf8_decode_utf8(text->0@);
        }
    }
    text
}

} // verus!
