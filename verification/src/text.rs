//! Fixed-width, NUL-terminated text fields.

use vstd::prelude::*;
use vstd::string::*;
use vstd::utf8::encode_utf8;

verus! {

/// Bytes in every fixed-width text field, the terminator included.
pub const TEXT_CAPACITY: usize = 32;

/// The bytes a C string keeps of `bytes`: all of them, or none when a NUL
/// stands among them.
pub open spec fn c_text(bytes: Seq<u8>) -> Seq<u8> {
    if bytes.contains(0u8) {
        Seq::empty()
    } else {
        bytes
    }
}

/// How many bytes of a C string fit in front of the terminator of a field.
pub open spec fn kept_len(text: Seq<u8>) -> int {
    if text.len() < TEXT_CAPACITY - 1 {
        text.len() as int
    } else {
        TEXT_CAPACITY - 1
    }
}

/// A field that held `before`, after `bytes` was written into it: the kept
/// prefix, one NUL, and behind it what the field held already.
pub open spec fn fixed_text(bytes: Seq<u8>, before: Seq<u8>) -> Seq<u8> {
    let text = c_text(bytes);
    let n = kept_len(text);
    Seq::new(
        TEXT_CAPACITY as nat,
        |i: int|
            if i < n {
                text[i]
            } else if i == n {
                0u8
            } else {
                before[i]
            },
    )
}

/// A field that holds the empty text and zeros behind it.
pub open spec fn zero_text() -> Seq<u8> {
    Seq::new(TEXT_CAPACITY as nat, |i: int| 0u8)
}

/// The field that holds `text` and zeros behind it.
pub open spec fn text_field(text: Seq<char>) -> Seq<u8> {
    fixed_text(encode_utf8(text), zero_text())
}

/// The bytes of `text` as a C string, terminator included.
pub open spec fn c_string(text: Seq<char>) -> Seq<u8> {
    c_text(encode_utf8(text)).push(0u8)
}

/// Whether a NUL byte stands in `bytes`.
pub fn has_nul(bytes: &[u8]) -> (found: bool)
    ensures
        found == bytes@.contains(0u8),
{
    let mut i: usize = 0;
    while i < bytes.len()
        invariant
            i <= bytes.len(),
            forall|k: int| 0 <= k < i ==> bytes@[k] != 0u8,
        decreases bytes.len() - i,
    {
        if bytes[i] == 0 {
            return true;
        }
        i += 1;
    }
    false
}

/// Writes `s` into the field `out`, truncated to what fits in front of a
/// terminator that is always written. A text with a NUL inside is written as
/// the empty text.
pub fn string_to_fixed_c_chars(s: &str, out: &mut [u8; 32])
    ensures
        final(out)@ == fixed_text(s.spec_bytes(), old(out)@),
{
    let bytes = s.as_bytes();
    let len: usize = if has_nul(bytes) { 0 } else { bytes.len() };
    let keep: usize = if len < TEXT_CAPACITY - 1 { len } else { TEXT_CAPACITY - 1 };
    let mut i: usize = 0;
    while i < keep
        invariant
            i <= keep,
            keep <= TEXT_CAPACITY - 1,
            keep <= bytes@.len(),
            forall|k: int| 0 <= k < i ==> out@[k] == bytes@[k],
            forall|k: int| i <= k < TEXT_CAPACITY ==> out@[k] == old(out)@[k],
        decreases keep - i,
    {
        out[i] = bytes[i];
        i += 1;
    }
    out[keep] = 0;
    assert(final(out)@ =~= fixed_text(s.spec_bytes(), old(out)@));
}

/// A fresh field that holds `s`, truncated and terminated, and zeros behind
/// the terminator.
pub fn text_field_of(s: &str) -> (field: [u8; 32])
    ensures
        field@ == text_field(s@),
{
    let mut field = [0u8; 32];
    assert(field@ =~= zero_text());
    string_to_fixed_c_chars(s, &mut field);
    field
}

/// The bytes of `s` as a C string, terminator included. A text with a NUL
/// inside gives the empty C string.
pub fn string_to_c_char(s: &str) -> (bytes: Vec<u8>)
    ensures
        bytes@ == c_string(s@),
{
    let source = s.as_bytes();
    let mut bytes: Vec<u8> = Vec::new();
    if !has_nul(source) {
        let mut i: usize = 0;
        while i < source.len()
            invariant
                i <= source.len(),
                bytes@ == source@.take(i as int),
            decreases source.len() - i,
        {
            bytes.push(source[i]);
            assert(source@.take(i as int).push(source@[i as int]) =~= source@.take(i + 1));
            i += 1;
        }
        assert(source@.take(source@.len() as int) =~= source@);
    }
    bytes.push(0);
    bytes
}

/// A field always has its full capacity and always holds a terminator: the
/// bytes in front of the first NUL are the kept prefix of the text.
pub proof fn field_reads_as_kept_prefix(bytes: Seq<u8>, before: Seq<u8>)
    ensures
        fixed_text(bytes, before).len() == TEXT_CAPACITY,
        0 <= kept_len(c_text(bytes)) < TEXT_CAPACITY,
        fixed_text(bytes, before)[kept_len(c_text(bytes))] == 0,
        forall|i: int|
            0 <= i < kept_len(c_text(bytes)) ==> fixed_text(bytes, before)[i] == c_text(bytes)[i]
                && fixed_text(bytes, before)[i] != 0,
{
    let text = c_text(bytes);
    assert forall|i: int| 0 <= i < kept_len(text) implies fixed_text(bytes, before)[i] == text[i]
        && fixed_text(bytes, before)[i] != 0 by {
        assert(text[i] == bytes[i]);
        assert(bytes.contains(bytes[i]));
    }
}

/// A text without a NUL that does not fit is cut without notice: the field
/// holds its first bytes, one less than the capacity, and a terminator in
/// the last place.
pub proof fn long_text_is_cut(bytes: Seq<u8>, before: Seq<u8>)
    requires
        bytes.len() >= TEXT_CAPACITY - 1,
        !bytes.contains(0u8),
    ensures
        fixed_text(bytes, before).len() == TEXT_CAPACITY,
        fixed_text(bytes, before).take(TEXT_CAPACITY - 1) == bytes.take(TEXT_CAPACITY - 1),
        fixed_text(bytes, before)[TEXT_CAPACITY - 1] == 0,
{
    assert(fixed_text(bytes, before).take(TEXT_CAPACITY - 1) =~= bytes.take(TEXT_CAPACITY - 1));
}

/// A text without a NUL that fits is held whole: its bytes, a terminator,
/// and behind it what the field held before.
pub proof fn short_text_is_held_whole(bytes: Seq<u8>, before: Seq<u8>)
    requires
        bytes.len() < TEXT_CAPACITY,
        !bytes.contains(0u8),
        before.len() == TEXT_CAPACITY,
    ensures
        fixed_text(bytes, before) == (bytes + seq![0u8]) + before.skip(bytes.len() as int + 1),
{
    assert(fixed_text(bytes, before) =~= (bytes + seq![0u8]) + before.skip(bytes.len() as int + 1));
}

/// A text with a NUL inside is written as the empty text.
pub proof fn text_with_nul_is_empty(bytes: Seq<u8>, before: Seq<u8>)
    requires
        bytes.contains(0u8),
    ensures
        fixed_text(bytes, before)[0] == 0,
        forall|i: int| 1 <= i < TEXT_CAPACITY ==> fixed_text(bytes, before)[i] == before[i],
{
}

} // verus!
