//! UTF-16 text primitives: code units to and from bytes, characters to and
//! from code units (lossy on the decode side), trailing-null trimming and
//! splitting at null units for the multi-string kind.
use vstd::prelude::*;
use vstd::bytes::*;
use vstd::seq_lib::*;
use vstd::arithmetic::div_mod::lemma_fundamental_div_mod;

verus! {

broadcast use vstd::seq_lib::group_seq_properties;

/// True of a code unit that opens a surrogate pair.
pub open spec fn is_high_surrogate(w: u16) -> bool {
    0xD800 <= w <= 0xDBFF
}

/// True of a code unit that closes a surrogate pair.
pub open spec fn is_low_surrogate(w: u16) -> bool {
    0xDC00 <= w <= 0xDFFF
}

/// The UTF-16 code units of one character: itself when it fits in one
/// unit, else a surrogate pair.
pub open spec fn char_units(c: char) -> Seq<u16> {
    if (c as u32) < 0x10000 {
        seq![c as u16]
    } else {
        seq![
            (0xD800 + (((c as u32) - 0x10000) / 0x400)) as u16,
            (0xDC00 + (((c as u32) - 0x10000) % 0x400)) as u16,
        ]
    }
}

/// The UTF-16 code units of a character sequence.
pub open spec fn utf16_of(s: Seq<char>) -> Seq<u16>
    decreases s.len(),
{
    if s.len() == 0 {
        Seq::empty()
    } else {
        char_units(s[0]) + utf16_of(s.drop_first())
    }
}

/// The character a well-formed surrogate pair denotes.
pub open spec fn combined(hi: u16, lo: u16) -> char
    recommends
        is_high_surrogate(hi),
        is_low_surrogate(lo),
{
    (0x10000 + (hi - 0xD800) * 0x400 + (lo - 0xDC00)) as char
}

/// Lossy UTF-16 decoding: each lone unit or well-formed surrogate pair
/// becomes its character; each stray surrogate becomes U+FFFD. Decoding
/// never fails on bad units, only substitutes.
pub open spec fn wide_chars(u: Seq<u16>) -> Seq<char>
    decreases u.len(),
{
    if u.len() == 0 {
        Seq::empty()
    } else if is_high_surrogate(u[0]) {
        if u.len() >= 2 && is_low_surrogate(u[1]) {
            seq![combined(u[0], u[1])] + wide_chars(u.skip(2))
        } else {
            seq!['\u{FFFD}'] + wide_chars(u.drop_first())
        }
    } else if is_low_surrogate(u[0]) {
        seq!['\u{FFFD}'] + wide_chars(u.drop_first())
    } else {
        seq![u[0] as char] + wide_chars(u.drop_first())
    }
}

/// The little-endian bytes of a code-unit sequence, two per unit.
pub open spec fn units_to_bytes(u: Seq<u16>) -> Seq<u8>
    decreases u.len(),
{
    if u.len() == 0 {
        Seq::empty()
    } else {
        spec_u16_to_le_bytes(u[0]) + units_to_bytes(u.drop_first())
    }
}

/// The code units read from a byte buffer, two bytes per unit,
/// little-endian; a trailing odd byte is dropped.
pub open spec fn bytes_to_units(b: Seq<u8>) -> Seq<u16>
    decreases b.len(),
{
    if b.len() < 2 {
        Seq::empty()
    } else {
        seq![spec_u16_from_le_bytes(b.take(2))] + bytes_to_units(b.skip(2))
    }
}

/// The sequence with every trailing null unit removed.
pub open spec fn trim_trailing_nulls(u: Seq<u16>) -> Seq<u16>
    decreases u.len(),
{
    if u.len() > 0 && u.last() == 0 {
        trim_trailing_nulls(u.drop_last())
    } else {
        u
    }
}

/// The index of the first null unit, or the length when there is none.
pub open spec fn first_null(u: Seq<u16>) -> int
    decreases u.len(),
{
    if u.len() == 0 {
        0
    } else if u[0] == 0 {
        0
    } else {
        1 + first_null(u.drop_first())
    }
}

/// The segments between null units. An empty sequence has no segments; a
/// sequence without nulls is one segment.
pub open spec fn split_on_null(u: Seq<u16>) -> Seq<Seq<u16>>
    decreases u.len(),
{
    if u.len() == 0 {
        Seq::empty()
    } else {
        let i = first_null_index(u);
        if i >= u.len() {
            seq![u]
        } else {
            seq![u.take(i)] + split_on_null(u.skip(i + 1))
        }
    }
}

/// `first_null`, clamped into the sequence for use as a split point.
pub open spec fn first_null_index(u: Seq<u16>) -> int {
    if 0 <= first_null(u) <= u.len() {
        first_null(u)
    } else {
        u.len() as int
    }
}

/// The first null is within the sequence, points at a null unit when it is
/// not the length, and nothing before it is null.
pub proof fn lemma_first_null(u: Seq<u16>)
    ensures
        0 <= first_null(u) <= u.len(),
        first_null(u) < u.len() ==> u[first_null(u)] == 0,
        forall|j: int| 0 <= j < first_null(u) ==> u[j] != 0,
    decreases u.len(),
{
    if u.len() > 0 && u[0] != 0 {
        lemma_first_null(u.drop_first());
    }
}

/// Reading the bytes of a code-unit sequence back yields the same units.
pub proof fn lemma_units_bytes_round_trip(u: Seq<u16>)
    ensures
        units_to_bytes(u).len() == 2 * u.len(),
        bytes_to_units(units_to_bytes(u)) == u,
    decreases u.len(),
{
    lemma_auto_spec_u16_to_from_le_bytes();
    if u.len() == 0 {
        assert(bytes_to_units(units_to_bytes(u)) =~= u);
    } else {
        lemma_units_bytes_round_trip(u.drop_first());
        let head = spec_u16_to_le_bytes(u[0]);
        let rest = units_to_bytes(u.drop_first());
        assert((head + rest).take(2) =~= head);
        assert((head + rest).skip(2) =~= rest);
        assert(bytes_to_units(units_to_bytes(u)) =~= u);
    }
}

/// Writing the units read from an even-length byte buffer restores the
/// buffer.
pub proof fn lemma_bytes_units_round_trip(b: Seq<u8>)
    requires
        b.len() % 2 == 0,
    ensures
        bytes_to_units(b).len() == b.len() / 2,
        units_to_bytes(bytes_to_units(b)) == b,
    decreases b.len(),
{
    lemma_auto_spec_u16_to_from_le_bytes();
    if b.len() < 2 {
        assert(units_to_bytes(bytes_to_units(b)) =~= b);
    } else {
        lemma_bytes_units_round_trip(b.skip(2));
        assert(bytes_to_units(b).drop_first() =~= bytes_to_units(b.skip(2)));
        assert(units_to_bytes(bytes_to_units(b)) =~= b.take(2) + b.skip(2));
        assert(b.take(2) + b.skip(2) =~= b);
    }
}

/// Emits the little-endian bytes of the given code units.
pub fn wide_to_bytes(u: &[u16]) -> (r: Vec<u8>)
    ensures
        r@ == units_to_bytes(u@),
        r@.len() == 2 * u@.len(),
{
    proof {
        lemma_units_bytes_round_trip(u@);
    }
    let mut r: Vec<u8> = Vec::new();
    let mut i: usize = 0;
    while i < u.len()
        invariant
            i <= u@.len(),
            r@.len() == 2 * i,
            r@ + units_to_bytes(u@.skip(i as int)) == units_to_bytes(u@),
        decreases u@.len() - i,
    {
        let pair = u16_to_le_bytes(u[i]);
        r.push(pair[0]);
        r.push(pair[1]);
        proof {
            let tail = u@.skip(i as int);
            assert(tail[0] == u@[i as int]);
            assert(tail.drop_first() =~= u@.skip(i as int + 1));
            assert(r@ =~= (r@.subrange(0, r@.len() - 2) + spec_u16_to_le_bytes(u@[i as int])));
        }
        i = i + 1;
    }
    proof {
        assert(u@.skip(u@.len() as int) =~= Seq::<u16>::empty());
        assert(r@ + Seq::<u8>::empty() =~= r@);
    }
    r
}

/// Reads code units from little-endian bytes, dropping a trailing odd byte.
pub fn bytes_to_wide(b: &[u8]) -> (r: Vec<u16>)
    ensures
        r@ == bytes_to_units(b@),
{
    let mut r: Vec<u16> = Vec::new();
    let mut i: usize = 0;
    while i < b.len() && i + 1 < b.len()
        invariant
            i <= b@.len(),
            r@ + bytes_to_units(b@.skip(i as int)) == bytes_to_units(b@),
        decreases b@.len() - i,
    {
        let w = u16_from_le_bytes(vstd::slice::slice_subrange(b, i, i + 2));
        r.push(w);
        proof {
            let tail = b@.skip(i as int);
            assert(tail.take(2) =~= b@.subrange(i as int, i as int + 2));
            assert(tail.skip(2) =~= b@.skip(i as int + 2));
        }
        i = i + 2;
    }
    proof {
        assert(bytes_to_units(b@.skip(i as int)) =~= Seq::<u16>::empty());
        assert(r@ + Seq::<u16>::empty() =~= r@);
    }
    r
}

/// True when no unit of the sequence is null.
pub open spec fn null_free(u: Seq<u16>) -> bool {
    forall|j: int| 0 <= j < u.len() ==> u[j] != 0
}

/// The code units of one character: their count, their surrogate shape,
/// and that decoding them restores the character.
pub proof fn lemma_char_units(c: char)
    ensures
        (c as u32) < 0x10000 ==> char_units(c) =~= seq![c as u16],
        (c as u32) < 0x10000 ==> !is_high_surrogate(c as u16) && !is_low_surrogate(c as u16),
        (c as u32) < 0x10000 ==> (c as u16) as char == c,
        (c as u32) < 0x10000 ==> ((c as u16) == 0 <==> c == '\u{0}'),
        (c as u32) >= 0x10000 ==> char_units(c).len() == 2 && is_high_surrogate(char_units(c)[0])
            && is_low_surrogate(char_units(c)[1]) && combined(char_units(c)[0], char_units(c)[1])
            == c,
{
    let n = c as u32;
    if n < 0x10000 {
        assert(c as u16 == n as u16);
        assert((n as u16) as u32 == n) by (bit_vector)
            requires
                n < 0x10000,
        ;
    } else {
        let m = (n - 0x10000) as int;
        assert(m < 0x100000);
        assert(m / 0x400 < 0x400 && m / 0x400 >= 0 && 0 <= m % 0x400 < 0x400) by (nonlinear_arith)
            requires
                0 <= m < 0x100000,
        ;
        lemma_fundamental_div_mod(m, 0x400);
        let hi = char_units(c)[0];
        let lo = char_units(c)[1];
        assert(hi == 0xD800 + m / 0x400 && lo == 0xDC00 + m % 0x400);
        assert(0x10000 + (hi - 0xD800) * 0x400 + (lo - 0xDC00) == 0x10000 + m);
    }
}

/// Decoding the UTF-16 encoding of a character sequence restores it: Rust
/// characters are scalar values, never surrogates, so the lossy decoder
/// never substitutes on them.
pub proof fn lemma_wide_of_utf16(s: Seq<char>)
    ensures
        wide_chars(utf16_of(s)) == s,
    decreases s.len(),
{
    if s.len() == 0 {
        assert(wide_chars(utf16_of(s)) =~= s);
    } else {
        let c = s[0];
        let rest = utf16_of(s.drop_first());
        lemma_char_units(c);
        lemma_wide_of_utf16(s.drop_first());
        let u = utf16_of(s);
        assert(u == char_units(c) + rest);
        if (c as u32) < 0x10000 {
            assert(u[0] == c as u16);
            assert(u.drop_first() =~= rest);
            assert(wide_chars(u) =~= seq![c] + s.drop_first());
        } else {
            assert(u[0] == char_units(c)[0] && u[1] == char_units(c)[1]);
            assert(u.skip(2) =~= rest);
            assert(wide_chars(u) =~= seq![c] + s.drop_first());
        }
        assert(seq![c] + s.drop_first() =~= s);
    }
}

/// An encoding contains a null unit only where the text contains the null
/// character, and it ends with a null unit only where the text ends with
/// one; the encoding of nonempty text is nonempty.
pub proof fn lemma_utf16_nulls(s: Seq<char>)
    ensures
        (forall|k: int| 0 <= k < s.len() ==> s[k] != '\u{0}') ==> null_free(utf16_of(s)),
        s.len() > 0 ==> utf16_of(s).len() > 0,
        s.len() > 0 && s.last() != '\u{0}' ==> utf16_of(s).last() != 0,
        s.len() == 0 ==> utf16_of(s).len() == 0,
    decreases s.len(),
{
    if s.len() > 0 {
        let c = s[0];
        lemma_char_units(c);
        lemma_utf16_nulls(s.drop_first());
        let head = char_units(c);
        let rest = utf16_of(s.drop_first());
        assert(forall|j: int|
            0 <= j < head.len() && c != '\u{0}' ==> head[j] != 0);
        if s.len() == 1 {
            assert(s.last() == c);
            assert(rest.len() == 0);
            assert(utf16_of(s).last() == head.last());
            if c != '\u{0}' {
                assert(head.last() != 0);
            }
        } else {
            assert(s.drop_first().len() > 0);
            assert(s.drop_first().last() == s.last());
            assert(utf16_of(s).last() == rest.last());
        }
    }
}

/// A trailing null unit never changes what trimming leaves: decoded text
/// is the same however many terminators follow it.
pub proof fn lemma_trim_push_null(u: Seq<u16>)
    ensures
        trim_trailing_nulls(u.push(0u16)) == trim_trailing_nulls(u),
{
    assert(u.push(0u16).last() == 0);
    assert(u.push(0u16).drop_last() =~= u);
}

/// Trimming changes nothing when the sequence does not end with a null.
pub proof fn lemma_trim_stable(u: Seq<u16>)
    requires
        u.len() == 0 || u.last() != 0,
    ensures
        trim_trailing_nulls(u) == u,
{
}

/// Trailing nulls are trimmed from the right part alone when the right
/// part does not trim away entirely.
pub proof fn lemma_trim_concat(x: Seq<u16>, y: Seq<u16>)
    requires
        trim_trailing_nulls(y).len() > 0,
    ensures
        trim_trailing_nulls(x + y) == x + trim_trailing_nulls(y),
    decreases y.len(),
{
    if y.len() == 0 {
    } else if y.last() == 0 {
        assert((x + y).last() == y.last());
        assert((x + y).drop_last() =~= x + y.drop_last());
        lemma_trim_concat(x, y.drop_last());
    } else {
        assert((x + y).last() != 0);
        lemma_trim_stable(x + y);
        lemma_trim_stable(y);
    }
}

/// The first null of `a + [0] + b` is right after `a` when `a` has none.
pub proof fn lemma_first_null_concat(a: Seq<u16>, b: Seq<u16>)
    requires
        null_free(a),
    ensures
        first_null(a + seq![0u16] + b) == a.len(),
    decreases a.len(),
{
    let u = a + seq![0u16] + b;
    if a.len() == 0 {
        assert(u[0] == 0);
    } else {
        assert(u[0] == a[0]);
        assert(u[0] != 0);
        assert(u.drop_first() =~= a.drop_first() + seq![0u16] + b);
        lemma_first_null_concat(a.drop_first(), b);
    }
}

/// Splitting takes a leading null-free segment off the front.
pub proof fn lemma_split_prepend(a: Seq<u16>, b: Seq<u16>)
    requires
        null_free(a),
    ensures
        split_on_null(a + seq![0u16] + b) == seq![a] + split_on_null(b),
{
    let u = a + seq![0u16] + b;
    lemma_first_null_concat(a, b);
    lemma_first_null(u);
    assert(first_null_index(u) == a.len());
    assert(u.take(a.len() as int) =~= a);
    assert(u.skip(a.len() as int + 1) =~= b);
    assert(split_on_null(u) =~= seq![a] + split_on_null(b));
}

/// A nonempty sequence without nulls is a single segment.
pub proof fn lemma_split_whole(a: Seq<u16>)
    requires
        null_free(a),
        a.len() > 0,
    ensures
        split_on_null(a) == seq![a],
{
    lemma_first_null(a);
    if first_null(a) < a.len() {
        assert(a[first_null(a)] == 0);
    }
    assert(first_null_index(a) == a.len());
}

/// Relies on char::from_u32: it returns the character of a Unicode scalar
/// value, and None exactly on surrogate code points and values past the
/// Unicode range.
pub assume_specification[ char::from_u32 ](n: u32) -> (r: Option<char>)
    ensures
        r is Some <==> (n < 0xD800 || (0xE000 <= n <= 0x10FFFF)),
        r matches Some(c) ==> c == n as char && c as u32 == n,
;

/// Relies on String::push: it appends the given character to the end of
/// the string.
pub assume_specification[ String::push ](s: &mut String, c: char)
    ensures
        final(s)@ == old(s)@.push(c),
;

/// Emits the UTF-16 code units of the text, without a terminator.
pub fn utf16_units(s: &str) -> (r: Vec<u16>)
    ensures
        r@ == utf16_of(s@),
{
    let len = s.unicode_len();
    let mut r: Vec<u16> = Vec::new();
    let mut i: usize = 0;
    while i < len
        invariant
            i <= len,
            len == s@.len(),
            r@ + utf16_of(s@.skip(i as int)) == utf16_of(s@),
        decreases len - i,
    {
        let c = s.get_char(i);
        proof {
            let tail = s@.skip(i as int);
            assert(tail[0] == c);
            assert(tail.drop_first() =~= s@.skip(i as int + 1));
            lemma_char_units(c);
        }
        let n = c as u32;
        if n < 0x10000 {
            r.push(n as u16);
            proof {
                assert(n as u16 == c as u16);
                assert(r@ =~= r@.subrange(0, r@.len() - 1) + char_units(c));
            }
        } else {
            let m = n - 0x10000;
            let hi = 0xD800 + m / 0x400;
            let lo = 0xDC00 + m % 0x400;
            proof {
                assert(m / 0x400 < 0x400 && m % 0x400 < 0x400) by (nonlinear_arith)
                    requires
                        m < 0x100000,
                ;
            }
            r.push(hi as u16);
            r.push(lo as u16);
            proof {
                assert(hi as u16 == char_units(c)[0] && lo as u16 == char_units(c)[1]);
                assert(r@ =~= r@.subrange(0, r@.len() - 2) + char_units(c));
            }
        }
        i = i + 1;
    }
    proof {
        assert(utf16_of(s@.skip(len as int)) =~= Seq::<u16>::empty());
        assert(r@ + Seq::<u16>::empty() =~= r@);
    }
    r
}

/// Decodes UTF-16 code units to text, putting U+FFFD in place of each
/// stray surrogate; it never fails.
pub fn wide_to_string(u: &[u16]) -> (r: String)
    ensures
        r@ == wide_chars(u@),
{
    let mut r = String::new();
    let mut i: usize = 0;
    let len = u.len();
    while i < len
        invariant
            i <= len,
            len == u@.len(),
            r@ + wide_chars(u@.skip(i as int)) == wide_chars(u@),
        decreases len - i,
    {
        let w = u[i];
        proof {
            let tail = u@.skip(i as int);
            assert(tail[0] == w);
            assert(tail.drop_first() =~= u@.skip(i as int + 1));
        }
        let ghost pre = r@;
        if 0xD800 <= w && w <= 0xDBFF {
            if i + 1 < len && 0xDC00 <= u[i + 1] && u[i + 1] <= 0xDFFF {
                let w2 = u[i + 1];
                proof {
                    let tail = u@.skip(i as int);
                    assert(tail[1] == w2);
                    assert(tail.skip(2) =~= u@.skip(i as int + 2));
                }
                let n: u32 = 0x10000 + ((w - 0xD800) as u32) * 0x400 + ((w2 - 0xDC00) as u32);
                let c = char::from_u32(n).unwrap();
                r.push(c);
                proof {
                    assert(n == 0x10000 + (w - 0xD800) * 0x400 + (w2 - 0xDC00));
                    assert(c == combined(w, w2));
                    assert(pre.push(c) =~= pre + seq![c]);
                    assert(pre + (seq![c] + wide_chars(u@.skip(i as int + 2))) =~= (pre + seq![c])
                        + wide_chars(u@.skip(i as int + 2)));
                }
                i = i + 2;
            } else {
                r.push('\u{FFFD}');
                proof {
                    let c = '\u{FFFD}';
                    assert(pre.push(c) =~= pre + seq![c]);
                    assert(pre + (seq![c] + wide_chars(u@.skip(i as int + 1))) =~= (pre + seq![c])
                        + wide_chars(u@.skip(i as int + 1)));
                }
                i = i + 1;
            }
        } else if 0xDC00 <= w && w <= 0xDFFF {
            r.push('\u{FFFD}');
            proof {
                let c = '\u{FFFD}';
                assert(pre.push(c) =~= pre + seq![c]);
                assert(pre + (seq![c] + wide_chars(u@.skip(i as int + 1))) =~= (pre + seq![c])
                    + wide_chars(u@.skip(i as int + 1)));
            }
            i = i + 1;
        } else {
            let c = char::from_u32(w as u32).unwrap();
            r.push(c);
            proof {
                assert(c == w as char);
                assert(pre.push(c) =~= pre + seq![c]);
                assert(pre + (seq![c] + wide_chars(u@.skip(i as int + 1))) =~= (pre + seq![c])
                    + wide_chars(u@.skip(i as int + 1)));
            }
            i = i + 1;
        }
    }
    proof {
        assert(wide_chars(u@.skip(len as int)) =~= Seq::<char>::empty());
        assert(r@ + Seq::<char>::empty() =~= r@);
    }
    r
}

/// Removes every trailing null unit.
pub fn trim_wide(u: Vec<u16>) -> (r: Vec<u16>)
    ensures
        r@ == trim_trailing_nulls(u@),
{
    let mut r = u;
    let ghost orig = r@;
    while r.len() > 0 && r[r.len() - 1] == 0
        invariant
            trim_trailing_nulls(r@) == trim_trailing_nulls(orig),
        decreases r@.len(),
    {
        proof {
            assert(r@.last() == 0);
        }
        r.pop();
    }
    proof {
        lemma_trim_stable(r@);
    }
    r
}

/// Splits at null units into the segments between them.
pub fn split_wide(u: &[u16]) -> (r: Vec<Vec<u16>>)
    ensures
        r.deep_view() == split_on_null(u@),
{
    let mut r: Vec<Vec<u16>> = Vec::new();
    let mut start: usize = 0;
    let mut i: usize = 0;
    let len = u.len();
    while i < len
        invariant
            start <= i <= len,
            len == u@.len(),
            forall|j: int| start <= j < i ==> u@[j] != 0,
            split_on_null(u@) == r.deep_view() + split_on_null(u@.skip(start as int)),
        decreases len - i,
    {
        if u[i] == 0 {
            let seg = vstd::slice::slice_to_vec(vstd::slice::slice_subrange(u, start, i));
            let ghost pre = r.deep_view();
            r.push(seg);
            proof {
                let a = u@.subrange(start as int, i as int);
                let b = u@.skip(i as int + 1);
                assert(null_free(a));
                assert(u@.skip(start as int) =~= a + seq![0u16] + b);
                lemma_split_prepend(a, b);
                assert(seg@ == a);
                assert forall|k: int| 0 <= k < r@.len() implies r.deep_view()[k] == (pre
                    + seq![a])[k] by {
                    if k < pre.len() {
                        assert(r@[k] == r@.subrange(0, r@.len() - 1)[k]);
                    }
                }
                assert(r.deep_view() =~~= pre + seq![a]);
                assert((pre + seq![a]) + split_on_null(b) =~~= pre + (seq![a] + split_on_null(b)));
            }
            start = i + 1;
        }
        i = i + 1;
    }
    let ghost pre = r.deep_view();
    if start < len {
        let seg = vstd::slice::slice_to_vec(vstd::slice::slice_subrange(u, start, len));
        r.push(seg);
        proof {
            let a = u@.skip(start as int);
            assert(seg@ =~= a);
            assert(null_free(a));
            lemma_split_whole(a);
            assert forall|k: int| 0 <= k < r@.len() implies r.deep_view()[k] == (pre
                + seq![a])[k] by {
                if k < pre.len() {
                    assert(r@[k] == r@.subrange(0, r@.len() - 1)[k]);
                }
            }
            assert(r.deep_view() =~~= pre + seq![a]);
        }
    } else {
        proof {
            assert(u@.skip(start as int) =~= Seq::<u16>::empty());
            assert(r.deep_view() + Seq::<Seq<u16>>::empty() =~~= r.deep_view());
        }
    }
    r
}

} // verus!


