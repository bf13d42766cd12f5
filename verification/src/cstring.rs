//! C strings and the fixed 64-byte name fields of MMV descriptors.

use vstd::prelude::*;
use vstd::utf8::*;

verus! {

/// Length of the fixed name fields (`MMV_NAMEMAX`) of instances and metrics.
pub const NAME_MAX: usize = 64;

/// The name field that holds the first `NAME_MAX` bytes of `bytes`,
/// each reinterpreted as a C `char`, and zero in every remaining slot.
pub open spec fn name_field(bytes: Seq<u8>) -> Seq<i8> {
    Seq::new(64, |i: int| if i < bytes.len() { bytes[i] as i8 } else { 0i8 })
}

/// Copies a NUL-terminated byte string into a 64-byte name field,
/// truncating what does not fit.
pub fn array64bytes_from_cstring(cstring: &[u8]) -> (array: [i8; 64])
    ensures
        array@ == name_field(cstring@),
{
    let mut array = [0i8; 64];
    let n: usize = if cstring.len() < 64 { cstring.len() } else { 64 };
    let mut i: usize = 0;
    while i < n
        invariant
            n <= 64,
            n <= cstring@.len(),
            i <= n,
            array@.len() == 64,
            forall|j: int| 0 <= j < i ==> array@[j] == cstring@[j] as i8,
            forall|j: int| i <= j < 64 ==> array@[j] == 0i8,
        decreases n - i,
    {
        array[i] = cstring[i] as i8;
        i = i + 1;
    }
    assert(array@ =~= name_field(cstring@));
    array
}

/// No byte of the UTF-8 encoding of a scalar other than U+0000 is zero.
proof fn lemma_scalar_bytes_nonzero(c: char)
    requires
        c != '\0',
    ensures
        forall|i: int|
            0 <= i < encode_scalar(c as u32).len() ==> #[trigger] encode_scalar(c as u32)[i] != 0u8,
{
    let s = c as u32;
    assert(s != 0);
    if has_width_1_encoding(s) {
        assert((s & 0x7F) as u8 != 0u8) by (bit_vector)
            requires
                s != 0,
                s <= 0x7F,
        ;
    } else {
        assert(0xC0u8 | ((s >> 6) & 0x1F) as u8 != 0u8) by (bit_vector);
        assert(0xE0u8 | ((s >> 12) & 0x0F) as u8 != 0u8) by (bit_vector);
        assert(0xF0u8 | ((s >> 18) & 0x7) as u8 != 0u8) by (bit_vector);
        assert(0x80u8 | (s & 0x3F) as u8 != 0u8) by (bit_vector);
        assert(0x80u8 | ((s >> 6) & 0x3F) as u8 != 0u8) by (bit_vector);
        assert(0x80u8 | ((s >> 12) & 0x3F) as u8 != 0u8) by (bit_vector);
    }
}

/// A text without U+0000 has no zero byte in its UTF-8 encoding.
pub proof fn lemma_utf8_without_nul(chars: Seq<char>)
    requires
        !chars.contains('\0'),
    ensures
        forall|i: int| 0 <= i < encode_utf8(chars).len() ==> encode_utf8(chars)[i] != 0u8,
    decreases chars.len(),
{
    if chars.len() > 0 {
        let rest = chars.drop_first();
        assert forall|j: int| 0 <= j < rest.len() implies rest[j] != '\0' by {
            assert(rest[j] == chars[j + 1]);
        }
        assert(chars[0] != '\0') by {
            assert(chars[0] == chars[0]);
        }
        lemma_scalar_bytes_nonzero(chars[0]);
        lemma_utf8_without_nul(rest);
        let head = encode_scalar(chars[0] as u32);
        let tail = encode_utf8(rest);
        assert(encode_utf8(chars) == head + tail);
        assert forall|i: int| 0 <= i < encode_utf8(chars).len() implies encode_utf8(chars)[i]
            != 0u8 by {
            if i < head.len() {
                assert(encode_utf8(chars)[i] == head[i]);
            } else {
                assert(encode_utf8(chars)[i] == tail[i - head.len()]);
            }
        }
    }
}

/// The bytes of the C string that holds `s`: its UTF-8 encoding followed
/// by a single terminating NUL, the only zero byte in the result.
pub fn c_string_bytes(s: &str) -> (bytes: Vec<u8>)
    requires
        !s@.contains('\0'),
    ensures
        bytes@ == encode_utf8(s@).push(0u8),
        forall|i: int| 0 <= i < bytes@.len() - 1 ==> bytes@[i] != 0u8,
{
    let text = s.as_bytes();
    let mut bytes: Vec<u8> = Vec::new();
    let mut i: usize = 0;
    while i < text.len()
        invariant
            text@ == encode_utf8(s@),
            i <= text@.len(),
            bytes@ == text@.subrange(0, i as int),
        decreases text@.len() - i,
    {
        bytes.push(text[i]);
        i = i + 1;
        assert(bytes@ =~= text@.subrange(0, i as int));
    }
    assert(bytes@ =~= text@);
    bytes.push(0u8);
    proof {
        lemma_utf8_without_nul(s@);
    }
    bytes
}

/// Copies a NUL-terminated byte string that fits in 64 bytes into a
/// name field; every slot after the string is zero.
pub fn array_from_cstring(cstring: &[u8]) -> (array: [i8; 64])
    requires
        cstring@.len() <= 64,
    ensures
        array@ == name_field(cstring@),
{
    let mut array = [0i8; 64];
    let mut i: usize = 0;
    while i < cstring.len()
        invariant
            cstring@.len() <= 64,
            i <= cstring@.len(),
            array@.len() == 64,
            forall|j: int| 0 <= j < i ==> array@[j] == cstring@[j] as i8,
            forall|j: int| i <= j < 64 ==> array@[j] == 0i8,
        decreases cstring@.len() - i,
    {
        array[i] = cstring[i] as i8;
        i = i + 1;
    }
    assert(array@ =~= name_field(cstring@));
    array
}

/// `field` holds the C string `text`: its bytes, none of them zero,
/// followed by a terminating NUL inside the field.
pub open spec fn holds_c_string(field: Seq<i8>, text: Seq<u8>) -> bool {
    &&& text.len() < field.len()
    &&& field[text.len() as int] == 0i8
    &&& forall|i: int| 0 <= i < text.len() ==> #[trigger] field[i] == text[i] as i8 && field[i] != 0i8
}

/// No byte of `text` is zero.
pub open spec fn no_nul_byte(text: Seq<u8>) -> bool {
    forall|i: int| 0 <= i < text.len() ==> #[trigger] text[i] != 0u8
}

proof fn lemma_nonzero_byte_as_char(b: u8)
    ensures
        b != 0u8 ==> b as i8 != 0i8,
{
    assert(b != 0u8 ==> b as i8 != 0i8) by (bit_vector);
}

/// A name field made from the C string of `text` reads back as `text`
/// exactly when `text` is shorter than the field; a longer text keeps
/// its first 64 bytes and the field holds no NUL at all.
pub proof fn lemma_name_field_reads_back(text: Seq<u8>)
    requires
        no_nul_byte(text),
    ensures
        text.len() < NAME_MAX ==> holds_c_string(name_field(text.push(0u8)), text),
        text.len() >= NAME_MAX ==> forall|i: int|
            0 <= i < NAME_MAX ==> #[trigger] name_field(text.push(0u8))[i] == text[i] as i8
                && name_field(text.push(0u8))[i] != 0i8,
{
    let field = name_field(text.push(0u8));
    assert forall|i: int| 0 <= i < text.len() && i < NAME_MAX implies #[trigger] field[i]
        == text[i] as i8 && field[i] != 0i8 by {
        assert(text.push(0u8)[i] == text[i]);
        lemma_nonzero_byte_as_char(text[i]);
    }
    if text.len() < NAME_MAX {
        assert(text.push(0u8)[text.len() as int] == 0u8);
        assert(0u8 as i8 == 0i8) by (bit_vector);
    }
}

} // verus!
