//! Text encodings at the boundary to the platform: UTF-16 paths with a
//! terminating NUL, NUL-terminated byte strings, and the text of a
//! diagnostic blob.

use vstd::prelude::*;
use vstd::string::StrSliceExecFns;
use vstd::string::StringSliceAdditionalSpecFns;
use vstd::utf8::decode_utf8;
use vstd::utf8::valid_utf8;

verus! {

/// The position of the first occurrence of `x` in `s`, or `s.len()` if `x`
/// does not occur.
pub open spec fn first_index_of<T>(s: Seq<T>, x: T) -> int
    decreases s.len(),
{
    if s.len() == 0 || s[0] == x {
        0
    } else {
        1 + first_index_of(s.drop_first(), x)
    }
}

/// `first_index_of` is in range, nothing before it equals `x`, and the
/// element at it, if there is one, is `x`.
pub proof fn lemma_first_index_of<T>(s: Seq<T>, x: T)
    ensures
        0 <= first_index_of(s, x) <= s.len(),
        forall|i: int| 0 <= i < first_index_of(s, x) ==> s[i] != x,
        first_index_of(s, x) < s.len() ==> s[first_index_of(s, x)] == x,
    decreases s.len(),
{
    if s.len() == 0 || s[0] == x {
    } else {
        let t = s.drop_first();
        lemma_first_index_of(t, x);
        assert forall|i: int| 0 <= i < first_index_of(s, x) implies s[i] != x by {
            if i > 0 {
                assert(s[i] == t[i - 1]);
            }
        }
    }
}

/// Any position with the three properties of `lemma_first_index_of` is
/// `first_index_of`.
pub proof fn lemma_first_index_of_unique<T>(s: Seq<T>, x: T, p: int)
    requires
        0 <= p <= s.len(),
        forall|i: int| 0 <= i < p ==> s[i] != x,
        p < s.len() ==> s[p] == x,
    ensures
        first_index_of(s, x) == p,
{
    lemma_first_index_of(s, x);
    let q = first_index_of(s, x);
    if q < p {
        assert(s[q] == x);
    } else if p < q {
        assert(s[p] == x);
    }
}

/// The UTF-16 code units of one character: the scalar value itself inside
/// the basic plane, a surrogate pair above it.
pub open spec fn utf16_units(c: char) -> Seq<u16> {
    let v = c as u32;
    if v < 0x1_0000 {
        seq![v as u16]
    } else {
        seq![
            (0xD800 + (v - 0x1_0000) / 0x400) as u16,
            (0xDC00 + (v - 0x1_0000) % 0x400) as u16,
        ]
    }
}

/// The UTF-16 encoding of a string: the units of its characters in order.
pub open spec fn utf16_encode(s: Seq<char>) -> Seq<u16>
    decreases s.len(),
{
    if s.len() == 0 {
        Seq::empty()
    } else {
        utf16_encode(s.drop_last()) + utf16_units(s.last())
    }
}

/// Where the first NUL character of `path` stands in its encoding, counted
/// in UTF-16 units: the length of the encoding of what precedes it.
pub open spec fn nul_unit_position(path: Seq<char>) -> nat {
    utf16_encode(path.take(first_index_of(path, '\0'))).len()
}

/// `units` closed by exactly one NUL: one is appended unless the last unit
/// already is NUL.
pub open spec fn wide_terminated(units: Seq<u16>) -> Seq<u16> {
    if units.len() > 0 && units.last() == 0 {
        units
    } else {
        units.push(0u16)
    }
}

/// Whether a NUL stands in `s` anywhere but in the last position.
pub open spec fn has_interior_nul<T>(s: Seq<T>, nul: T) -> bool {
    first_index_of(s, nul) + 1 < s.len()
}

/// Whether `s` is a C string: its only NUL is its last element.
pub open spec fn is_c_string<T>(s: Seq<T>, nul: T) -> bool {
    s.len() > 0 && first_index_of(s, nul) == s.len() - 1
}

/// Units without a NUL before the last position, closed by
/// `wide_terminated`, are a C string of the same content.
pub proof fn lemma_wide_terminated_is_c_string(units: Seq<u16>)
    requires
        !has_interior_nul(units, 0u16),
    ensures
        is_c_string(wide_terminated(units), 0u16),
        wide_terminated(units).drop_last() == units.take(first_index_of(units, 0u16)),
{
    let p = first_index_of(units, 0u16);
    let w = wide_terminated(units);
    lemma_first_index_of(units, 0u16);
    if units.len() > 0 && units.last() == 0 {
        assert(w.drop_last() == units.take(p));
    } else {
        assert forall|i: int| 0 <= i < w.len() - 1 implies w[i] != 0 by {
            assert(w[i] == units[i]);
        }
        lemma_first_index_of_unique(w, 0u16, w.len() - 1);
        assert(units.take(p) == units);
        assert(w.drop_last() == units);
    }
}

/// A character encodes to a NUL unit only if it is the NUL character, and
/// then to that unit alone.
pub proof fn lemma_utf16_units_nul(c: char)
    ensures
        1 <= utf16_units(c).len() <= 2,
        c == '\0' ==> utf16_units(c) == seq![0u16],
        c != '\0' ==> forall|i: int| 0 <= i < utf16_units(c).len() ==> utf16_units(c)[i] != 0,
{
    let v = c as u32;
    vstd::utf8::char_is_scalar(c);
    if c == '\0' {
        assert(v == 0);
    } else {
        if v == 0 {
            vstd::utf8::char_u32_cast(c, 0u32);
            assert(false);
        }
        if v >= 0x1_0000 {
            assert(v <= 0x10_FFFF);
            assert((v - 0x1_0000) / 0x400 <= 0x3FF);
        }
    }
}

/// Encoding distributes over appending one character.
pub proof fn lemma_utf16_encode_push(s: Seq<char>, c: char)
    ensures
        utf16_encode(s.push(c)) == utf16_encode(s) + utf16_units(c),
{
    assert(s.push(c).drop_last() == s);
}

/// The first NUL unit of an encoding stands where the encoding of the
/// characters before the first NUL character ends.
pub proof fn lemma_utf16_first_nul(s: Seq<char>)
    ensures
        first_index_of(utf16_encode(s), 0u16) == nul_unit_position(s),
        first_index_of(s, '\0') == s.len() ==> first_index_of(utf16_encode(s), 0u16)
            == utf16_encode(s).len(),
        first_index_of(s, '\0') < s.len() ==> utf16_encode(s).len() >= first_index_of(
            utf16_encode(s),
            0u16,
        ) + (s.len() - first_index_of(s, '\0')),
    decreases s.len(),
{
    let k = first_index_of(s, '\0');
    let u = utf16_encode(s);
    lemma_first_index_of(s, '\0');
    if s.len() == 0 {
        assert(s.take(0) == s);
    } else {
        let t = s.drop_last();
        let c = s.last();
        let ut = utf16_encode(t);
        lemma_utf16_first_nul(t);
        lemma_first_index_of(t, '\0');
        lemma_utf16_units_nul(c);
        lemma_first_index_of(ut, 0u16);
        let kt = first_index_of(t, '\0');
        assert(u == ut + utf16_units(c));
        if kt < t.len() {
            // The first NUL character lies in `t`.
            assert(t[kt] == s[kt]);
            assert forall|i: int| 0 <= i < kt implies s[i] != '\0' by {
                assert(s[i] == t[i]);
            }
            lemma_first_index_of_unique(s, '\0', kt);
            assert(s.take(kt) == t.take(kt));
            let p = first_index_of(ut, 0u16);
            assert(u[p] == ut[p]);
            assert forall|i: int| 0 <= i < p implies u[i] != 0 by {
                assert(u[i] == ut[i]);
            }
            lemma_first_index_of_unique(u, 0u16, p);
        } else {
            // No NUL character in `t`, so none of its units is NUL.
            assert forall|i: int| 0 <= i < t.len() implies s[i] != '\0' by {
                assert(s[i] == t[i]);
            }
            assert(s.take(t.len() as int) == t);
            assert forall|i: int| 0 <= i < ut.len() implies u[i] != 0 by {
                assert(u[i] == ut[i]);
            }
            if c == '\0' {
                lemma_first_index_of_unique(s, '\0', t.len() as int);
                assert(u[ut.len() as int] == utf16_units(c)[0]);
                lemma_first_index_of_unique(u, 0u16, ut.len() as int);
            } else {
                lemma_first_index_of_unique(s, '\0', s.len() as int);
                assert(s.take(s.len() as int) == s);
                assert forall|i: int| 0 <= i < u.len() implies u[i] != 0 by {
                    if i >= ut.len() {
                        assert(u[i] == utf16_units(c)[i - ut.len()]);
                    }
                }
                lemma_first_index_of_unique(u, 0u16, u.len() as int);
            }
        }
    }
}

/// A string has a NUL character before its last character exactly when its
/// encoding has a NUL unit before its last unit.
pub proof fn lemma_utf16_interior_nul(s: Seq<char>)
    ensures
        has_interior_nul(utf16_encode(s), 0u16) <==> has_interior_nul(s, '\0'),
{
    let k = first_index_of(s, '\0');
    let u = utf16_encode(s);
    lemma_utf16_first_nul(s);
    lemma_first_index_of(s, '\0');
    lemma_first_index_of(u, 0u16);
    if k + 1 == s.len() {
        assert(s.take(k).push(s[k]) == s);
        lemma_utf16_encode_push(s.take(k), s[k]);
        lemma_utf16_units_nul(s[k]);
    }
}

/// The string that `units` encode, where they encode one. No two strings
/// have the same encoding (`lemma_utf16_encode_injective`).
pub open spec fn utf16_decode(units: Seq<u16>) -> Option<Seq<char>> {
    if exists|s: Seq<char>| utf16_encode(s) == units {
        Some(choose|s: Seq<char>| utf16_encode(s) == units)
    } else {
        None
    }
}

/// Whether `unit` is the second half of a surrogate pair.
pub open spec fn is_low_surrogate(unit: u16) -> bool {
    0xDC00 <= unit <= 0xDFFF
}

/// The units of a character end in a low surrogate exactly when there are
/// two of them, and they determine the character.
pub proof fn lemma_utf16_units_determine_char(c: char, d: char)
    ensures
        utf16_units(c).len() == 2 <==> is_low_surrogate(utf16_units(c).last()),
        utf16_units(c).len() == 2 ==> 0xD800 <= utf16_units(c)[0] <= 0xDBFF,
        utf16_units(c) == utf16_units(d) ==> c == d,
{
    let v = c as u32;
    let w = d as u32;
    vstd::utf8::char_is_scalar(c);
    vstd::utf8::char_is_scalar(d);
    if v >= 0x1_0000 {
        assert((v - 0x1_0000) / 0x400 <= 0x3FF);
    }
    if utf16_units(c) == utf16_units(d) {
        assert(utf16_units(c).len() == utf16_units(d).len());
        if v < 0x1_0000 {
            assert(utf16_units(c)[0] == utf16_units(d)[0]);
            assert(v == w);
        } else {
            assert(w >= 0x1_0000);
            assert((w - 0x1_0000) / 0x400 <= 0x3FF);
            assert(utf16_units(c)[0] == utf16_units(d)[0]);
            assert(utf16_units(c)[1] == utf16_units(d)[1]);
            assert((v - 0x1_0000) / 0x400 == (w - 0x1_0000) / 0x400);
            assert((v - 0x1_0000) % 0x400 == (w - 0x1_0000) % 0x400);
            assert(v == w);
        }
        vstd::utf8::char_u32_cast(c, v);
        vstd::utf8::char_u32_cast(d, v);
    }
}

/// No two strings have the same UTF-16 encoding.
pub proof fn lemma_utf16_encode_injective(a: Seq<char>, b: Seq<char>)
    requires
        utf16_encode(a) == utf16_encode(b),
    ensures
        a == b,
    decreases a.len(),
{
    if a.len() == 0 || b.len() == 0 {
        if a.len() > 0 {
            lemma_utf16_units_nul(a.last());
        }
        if b.len() > 0 {
            lemma_utf16_units_nul(b.last());
        }
        assert(a.len() == 0 && b.len() == 0);
        assert(a =~= b);
    } else {
        let c = a.last();
        let d = b.last();
        let ea = utf16_encode(a.drop_last());
        let eb = utf16_encode(b.drop_last());
        let uc = utf16_units(c);
        let ud = utf16_units(d);
        let whole = utf16_encode(a);
        lemma_utf16_units_determine_char(c, d);
        lemma_utf16_units_determine_char(d, c);
        assert(whole == ea + uc);
        assert(whole == eb + ud);
        assert(whole.last() == uc.last());
        assert(whole.last() == ud.last());
        assert(uc.len() == ud.len());
        assert(ea.len() == eb.len());
        assert forall|i: int| 0 <= i < uc.len() implies uc[i] == ud[i] by {
            assert(whole[ea.len() + i] == uc[i]);
            assert(whole[eb.len() + i] == ud[i]);
        }
        assert(uc =~= ud);
        assert forall|i: int| 0 <= i < ea.len() implies ea[i] == eb[i] by {
            assert(whole[i] == ea[i]);
            assert(whole[i] == eb[i]);
        }
        assert(ea =~= eb);
        lemma_utf16_encode_injective(a.drop_last(), b.drop_last());
        assert(a =~= a.drop_last().push(c));
        assert(b =~= b.drop_last().push(d));
    }
}

/// Decoding undoes encoding.
pub proof fn lemma_utf16_decode_encode(s: Seq<char>)
    ensures
        utf16_decode(utf16_encode(s)) == Some(s),
{
    let units = utf16_encode(s);
    let t = choose|t: Seq<char>| utf16_encode(t) == units;
    lemma_utf16_encode_injective(t, s);
}

/// Encodes `path` as UTF-16, closed by one NUL.
///
/// Trusted: this is `widestring::U16CString::from_str`, which encodes with
/// `str::encode_utf16`, refuses a NUL unit that is not the last one with the
/// position of the first such unit, and appends a NUL unless the last unit is
/// one already; the units are taken out with `into_vec_with_nul`.
#[verifier::external_body]
fn wide_c_string(path: &str) -> (r: Result<Vec<u16>, usize>)
    ensures
        match r {
            Ok(units) => !has_interior_nul(utf16_encode(path@), 0u16) && units@ == wide_terminated(
                utf16_encode(path@),
            ),
            Err(position) => has_interior_nul(utf16_encode(path@), 0u16) && position
                == first_index_of(utf16_encode(path@), 0u16),
        },
{
    match widestring::U16CString::from_str(path) {
        Ok(wide) => Ok(wide.into_vec_with_nul()),
        Err(error) => Err(error.nul_position()),
    }
}

/// The UTF-16 form of `path` with its terminating NUL, as a wide C string
/// is handed to the platform, or the unit position of the first NUL that
/// is not the final character.
pub fn encode_wide_path(path: &str) -> (r: Result<Vec<u16>, usize>)
    ensures
        r is Ok <==> !has_interior_nul(path@, '\0'),
        r matches Ok(units) ==> units@ == wide_terminated(utf16_encode(path@)),
        r matches Err(position) ==> position == nul_unit_position(path@),
{
    proof {
        lemma_utf16_interior_nul(path@);
        lemma_utf16_first_nul(path@);
    }
    wide_c_string(path)
}

/// Decodes `units` as UTF-16.
///
/// Trusted: this is `String::from_utf16`, which returns the string that the
/// units encode and fails exactly when they hold invalid data, that is when
/// no string has them as its encoding.
#[verifier::external_body]
fn string_from_utf16(units: &Vec<u16>) -> (r: Option<String>)
    ensures
        r matches Some(text) ==> utf16_encode(text@) == units@,
        r is None ==> forall|s: Seq<char>| #[trigger] utf16_encode(s) != units@,
{
    String::from_utf16(units).ok()
}

/// The string that `units` encode in UTF-16, or `None` where they encode
/// none.
pub fn decode_wide(units: &Vec<u16>) -> (r: Option<String>)
    ensures
        match r {
            Some(text) => utf16_decode(units@) == Some(text@),
            None => utf16_decode(units@) is None,
        },
{
    let decoded = string_from_utf16(units);
    proof {
        if decoded is Some {
            lemma_utf16_decode_encode(decoded->0@);
        }
    }
    decoded
}

/// The bytes of `text` followed by one NUL.
pub fn nul_terminated(text: &str) -> (r: Vec<u8>)
    ensures
        r@ == text.spec_bytes().push(0u8),
{
    let mut bytes = text.as_bytes_vec();
    bytes.push(0u8);
    bytes
}

/// The content of a C string held in `bytes`: what precedes the first NUL,
/// or everything where there is none.
pub open spec fn c_str_prefix(bytes: Seq<u8>) -> Seq<u8> {
    bytes.take(first_index_of(bytes, 0u8))
}

/// Text without a NUL byte, followed by one NUL, is a C string.
pub proof fn lemma_nul_terminated_is_c_string(bytes: Seq<u8>)
    requires
        forall|i: int| 0 <= i < bytes.len() ==> bytes[i] != 0,
    ensures
        is_c_string(bytes.push(0u8), 0u8),
        c_str_prefix(bytes.push(0u8)) == bytes,
{
    let c = bytes.push(0u8);
    assert forall|i: int| 0 <= i < bytes.len() implies c[i] != 0 by {
        assert(c[i] == bytes[i]);
    }
    lemma_first_index_of_unique(c, 0u8, bytes.len() as int);
    assert(c.take(bytes.len() as int) == bytes);
}

/// The length of the C string held in `bytes`.
pub fn c_str_len(bytes: &Vec<u8>) -> (n: usize)
    ensures
        n == first_index_of(bytes@, 0u8),
        n <= bytes.len(),
{
    let mut i: usize = 0;
    while i < bytes.len() && bytes[i] != 0
        invariant
            i <= bytes.len(),
            forall|j: int| 0 <= j < i ==> bytes@[j] != 0,
        decreases bytes.len() - i,
    {
        i += 1;
    }
    proof {
        lemma_first_index_of_unique(bytes@, 0u8, i as int);
    }
    i
}

/// Copies the C string held in `bytes`, without its terminator.
pub fn c_str_bytes(bytes: &Vec<u8>) -> (r: Vec<u8>)
    ensures
        r@ == c_str_prefix(bytes@),
{
    let n = c_str_len(bytes);
    let mut out: Vec<u8> = Vec::new();
    let mut i: usize = 0;
    while i < n
        invariant
            i <= n <= bytes.len(),
            out@ == bytes@.take(i as int),
        decreases n - i,
    {
        out.push(bytes[i]);
        i += 1;
        assert(bytes@.take(i as int) == bytes@.take(i - 1).push(bytes@[i - 1]));
    }
    out
}

/// Decodes `bytes` as UTF-8.
///
/// Trusted: this is `String::from_utf8`, which returns the string that the
/// bytes encode and fails exactly when they are not valid UTF-8.
#[verifier::external_body]
fn string_from_utf8(bytes: Vec<u8>) -> (r: Option<String>)
    ensures
        r is Some <==> valid_utf8(bytes@),
        r matches Some(text) ==> text@ == decode_utf8(bytes@),
{
    String::from_utf8(bytes).ok()
}

/// The text of the C string held in `bytes`, where it is valid UTF-8.
pub fn c_str_text(bytes: &Vec<u8>) -> (r: Option<String>)
    ensures
        r is Some <==> valid_utf8(c_str_prefix(bytes@)),
        r matches Some(text) ==> text@ == decode_utf8(c_str_prefix(bytes@)),
{
    string_from_utf8(c_str_bytes(bytes))
}

} // verus!
