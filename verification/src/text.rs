//! UTF-8 / UTF-16 offset arithmetic over string slices, with the lemmas that
//! tie byte offsets, character prefixes and UTF-16 offsets together.

use vstd::prelude::*;
use vstd::string::StringSliceAdditionalSpecFns;
use vstd::utf8::*;

verus! {

broadcast use vstd::string::group_string_axioms;

/// Number of UTF-8 bytes that encode `c`.
pub open spec fn char_utf8_len(c: char) -> nat {
    encode_scalar(c as u32).len()
}

/// Number of UTF-16 code units that encode `c`.
pub open spec fn char_utf16_len(c: char) -> nat {
    if (c as u32) < 0x10000 {
        1
    } else {
        2
    }
}

/// Number of UTF-16 code units that encode `cs`.
pub open spec fn utf16_len(cs: Seq<char>) -> nat
    decreases cs.len(),
{
    if cs.len() == 0 {
        0
    } else {
        utf16_len(cs.drop_last()) + char_utf16_len(cs.last())
    }
}

/// The UTF-8 byte offset reached by consuming the characters of `cs` while
/// fewer than `offset` UTF-16 code units have been consumed.
pub open spec fn utf16_to_utf8_offset(cs: Seq<char>, offset: int) -> nat
    decreases cs.len(),
{
    if cs.len() == 0 || offset <= 0 {
        0
    } else {
        char_utf8_len(cs[0]) + utf16_to_utf8_offset(cs.drop_first(), offset - char_utf16_len(cs[0]))
    }
}

/// How many characters `utf16_to_utf8_offset` consumes.
pub open spec fn utf16_to_char_count(cs: Seq<char>, offset: int) -> nat
    decreases cs.len(),
{
    if cs.len() == 0 || offset <= 0 {
        0
    } else {
        1 + utf16_to_char_count(cs.drop_first(), offset - char_utf16_len(cs[0]))
    }
}

/// `c` with a line feed or carriage return turned into a space.
pub open spec fn line_break_to_space(c: char) -> char {
    if c == '\n' || c == '\r' {
        ' '
    } else {
        c
    }
}

/// The byte `b` with a line feed or carriage return byte turned into a space byte.
pub open spec fn line_break_byte_to_space(b: u8) -> u8 {
    if b == 10 || b == 13 {
        32
    } else {
        b
    }
}

/// Every line feed and carriage return of `cs` turned into a space.
pub open spec fn line_breaks_to_spaces(cs: Seq<char>) -> Seq<char> {
    cs.map_values(|c: char| line_break_to_space(c))
}

/// Every line feed and carriage return byte of `bytes` turned into a space byte.
pub open spec fn line_break_bytes_to_spaces(bytes: Seq<u8>) -> Seq<u8> {
    bytes.map_values(|b: u8| line_break_byte_to_space(b))
}

/// UTF-8 encoding distributes over concatenation.
pub proof fn lemma_encode_utf8_concat(a: Seq<char>, b: Seq<char>)
    ensures
        encode_utf8(a + b) == encode_utf8(a) + encode_utf8(b),
    decreases a.len(),
{
    if a.len() == 0 {
        assert(a + b =~= b);
        assert(encode_utf8(a) + encode_utf8(b) =~= encode_utf8(b));
    } else {
        assert((a + b).drop_first() =~= a.drop_first() + b);
        lemma_encode_utf8_concat(a.drop_first(), b);
        assert(encode_utf8(a + b) =~= encode_utf8(a) + encode_utf8(b));
    }
}

/// The encoding of a single character.
pub proof fn lemma_encode_utf8_single(c: char)
    ensures
        encode_utf8(seq![c]) == encode_scalar(c as u32),
{
    assert(seq![c].drop_first() =~= Seq::<char>::empty());
    assert(seq![c][0] == c);
    assert(encode_utf8(Seq::<char>::empty()) =~= Seq::<u8>::empty());
    assert(encode_utf8(seq![c]) =~= encode_scalar(c as u32) + encode_utf8(Seq::<char>::empty()));
    assert(encode_utf8(seq![c]) =~= encode_scalar(c as u32));
}

/// The encoding of a prefix is a prefix of the encoding.
pub proof fn lemma_encode_utf8_prefix(cs: Seq<char>, k: int)
    requires
        0 <= k <= cs.len(),
    ensures
        encode_utf8(cs.take(k)).len() <= encode_utf8(cs).len(),
        encode_utf8(cs.take(k)) == encode_utf8(cs).take(encode_utf8(cs.take(k)).len() as int),
        encode_utf8(cs.skip(k)) == encode_utf8(cs).skip(encode_utf8(cs.take(k)).len() as int),
{
    assert(cs =~= cs.take(k) + cs.skip(k));
    lemma_encode_utf8_concat(cs.take(k), cs.skip(k));
    assert(encode_utf8(cs.take(k)) =~= encode_utf8(cs).take(encode_utf8(cs.take(k)).len() as int));
    assert(encode_utf8(cs.skip(k)) =~= encode_utf8(cs).skip(encode_utf8(cs.take(k)).len() as int));
}

/// The encoding of one more character extends the encoding of the prefix.
pub proof fn lemma_encode_utf8_take_next(cs: Seq<char>, k: int)
    requires
        0 <= k < cs.len(),
    ensures
        encode_utf8(cs.take(k + 1)).len() == encode_utf8(cs.take(k)).len() + char_utf8_len(cs[k]),
{
    assert(cs.take(k + 1) =~= cs.take(k) + seq![cs[k]]);
    lemma_encode_utf8_concat(cs.take(k), seq![cs[k]]);
    lemma_encode_utf8_single(cs[k]);
}

/// A `char` is encoded in one to four bytes and one or two UTF-16 code units.
pub proof fn lemma_char_widths(c: char)
    ensures
        1 <= char_utf16_len(c) <= char_utf8_len(c) <= 4,
{
    broadcast use char_is_scalar;

}

/// A string takes no more UTF-16 code units than UTF-8 bytes.
pub proof fn lemma_utf16_le_utf8(cs: Seq<char>)
    ensures
        utf16_len(cs) <= encode_utf8(cs).len(),
    decreases cs.len(),
{
    if cs.len() > 0 {
        let init = cs.drop_last();
        lemma_utf16_le_utf8(init);
        assert(cs =~= init + seq![cs.last()]);
        lemma_encode_utf8_concat(init, seq![cs.last()]);
        lemma_encode_utf8_single(cs.last());
        lemma_char_widths(cs.last());
    }
}

/// UTF-16 length distributes over concatenation.
pub proof fn lemma_utf16_len_concat(a: Seq<char>, b: Seq<char>)
    ensures
        utf16_len(a + b) == utf16_len(a) + utf16_len(b),
    decreases b.len(),
{
    if b.len() == 0 {
        assert(a + b =~= a);
    } else {
        assert((a + b).drop_last() =~= a + b.drop_last());
        lemma_utf16_len_concat(a, b.drop_last());
    }
}

/// Every character prefix ends on a character boundary of the encoding.
pub proof fn lemma_prefix_is_char_boundary(cs: Seq<char>, k: int)
    requires
        0 <= k <= cs.len(),
    ensures
        is_char_boundary(encode_utf8(cs), encode_utf8(cs.take(k)).len() as int),
    decreases k,
{
    broadcast use encode_utf8_valid_utf8;

    let bytes = encode_utf8(cs);
    if k == 0 {
        assert(cs.take(0) =~= Seq::<char>::empty());
    } else {
        encode_utf8_first_scalar(cs);
        assert(pop_first_scalar(bytes) =~= encode_utf8(cs.drop_first()));
        lemma_prefix_is_char_boundary(cs.drop_first(), k - 1);
        assert(cs.take(k) =~= seq![cs[0]] + cs.drop_first().take(k - 1));
        lemma_encode_utf8_concat(seq![cs[0]], cs.drop_first().take(k - 1));
        lemma_encode_utf8_single(cs[0]);
        lemma_encode_utf8_prefix(cs, k);
    }
}

/// Every character boundary of an encoding ends a character prefix.
pub proof fn lemma_char_boundary_is_prefix(cs: Seq<char>, b: int)
    requires
        is_char_boundary(encode_utf8(cs), b),
    ensures
        exists|k: int|
            0 <= k <= cs.len() && #[trigger] encode_utf8(cs.take(k)).len() == b,
    decreases cs.len(),
{
    broadcast use encode_utf8_valid_utf8;

    let bytes = encode_utf8(cs);
    if b == 0 {
        assert(cs.take(0) =~= Seq::<char>::empty());
        assert(encode_utf8(cs.take(0)).len() == 0);
    } else {
        assert(cs.len() > 0) by {
            if cs.len() == 0 {
                assert(bytes.len() == 0);
            }
        }
        encode_utf8_first_scalar(cs);
        assert(pop_first_scalar(bytes) =~= encode_utf8(cs.drop_first()));
        let first = length_of_first_scalar(bytes);
        assert(is_char_boundary(encode_utf8(cs.drop_first()), b - first));
        lemma_char_boundary_is_prefix(cs.drop_first(), b - first);
        let j = choose|j: int|
            0 <= j <= cs.drop_first().len() && #[trigger] encode_utf8(cs.drop_first().take(j)).len()
                == b - first;
        assert(cs.take(j + 1) =~= seq![cs[0]] + cs.drop_first().take(j));
        lemma_encode_utf8_concat(seq![cs[0]], cs.drop_first().take(j));
        lemma_encode_utf8_single(cs[0]);
        assert(encode_utf8(cs.take(j + 1)).len() == b);
    }
}

/// `utf16_to_utf8_offset` consumes whole characters.
pub proof fn lemma_utf16_to_utf8_offset_prefix(cs: Seq<char>, offset: int)
    ensures
        utf16_to_char_count(cs, offset) <= cs.len(),
        utf16_to_utf8_offset(cs, offset) == encode_utf8(cs.take(utf16_to_char_count(cs, offset) as int)).len(),
    decreases cs.len(),
{
    if cs.len() == 0 || offset <= 0 {
        assert(cs.take(0) =~= Seq::<char>::empty());
    } else {
        let rest = cs.drop_first();
        let next = offset - char_utf16_len(cs[0]);
        lemma_utf16_to_utf8_offset_prefix(rest, next);
        let k = utf16_to_char_count(rest, next) as int;
        assert(cs.take(k + 1) =~= seq![cs[0]] + rest.take(k));
        lemma_encode_utf8_concat(seq![cs[0]], rest.take(k));
        lemma_encode_utf8_single(cs[0]);
    }
}

/// `utf16_to_utf8_offset` always lands on a character boundary within the encoding.
pub proof fn lemma_utf16_to_utf8_offset_boundary(cs: Seq<char>, offset: int)
    ensures
        utf16_to_utf8_offset(cs, offset) <= encode_utf8(cs).len(),
        is_char_boundary(encode_utf8(cs), utf16_to_utf8_offset(cs, offset) as int),
{
    lemma_utf16_to_utf8_offset_prefix(cs, offset);
    let k = utf16_to_char_count(cs, offset) as int;
    lemma_encode_utf8_prefix(cs, k);
    lemma_prefix_is_char_boundary(cs, k);
}

/// Converting the UTF-16 length of a character prefix back gives the byte
/// length of that prefix.
pub proof fn lemma_utf16_roundtrip_prefix(cs: Seq<char>, k: int)
    requires
        0 <= k <= cs.len(),
    ensures
        utf16_to_utf8_offset(cs, utf16_len(cs.take(k)) as int) == encode_utf8(cs.take(k)).len(),
    decreases k,
{
    if k == 0 {
        assert(cs.take(0) =~= Seq::<char>::empty());
    } else {
        let rest = cs.drop_first();
        assert(cs.take(k) =~= seq![cs[0]] + rest.take(k - 1));
        lemma_utf16_len_concat(seq![cs[0]], rest.take(k - 1));
        assert(seq![cs[0]].drop_last() =~= Seq::<char>::empty());
        assert(seq![cs[0]].last() == cs[0]);
        assert(utf16_len(Seq::<char>::empty()) == 0);
        assert(utf16_len(seq![cs[0]]) == char_utf16_len(cs[0]));
        lemma_char_widths(cs[0]);
        lemma_utf16_roundtrip_prefix(rest, k - 1);
        lemma_encode_utf8_concat(seq![cs[0]], rest.take(k - 1));
        lemma_encode_utf8_single(cs[0]);
    }
}

/// Turning line breaks into spaces commutes with UTF-8 encoding.
pub proof fn lemma_line_breaks_encode(cs: Seq<char>)
    ensures
        encode_utf8(line_breaks_to_spaces(cs)) == line_break_bytes_to_spaces(encode_utf8(cs)),
    decreases cs.len(),
{
    broadcast use char_is_scalar;

    if cs.len() == 0 {
        assert(line_breaks_to_spaces(cs) =~= Seq::<char>::empty());
        assert(line_break_bytes_to_spaces(encode_utf8(cs)) =~= Seq::<u8>::empty());
    } else {
        let c = cs[0];
        let rest = cs.drop_first();
        lemma_line_breaks_encode(rest);
        assert(line_breaks_to_spaces(cs).drop_first() =~= line_breaks_to_spaces(rest));
        let e = encode_scalar(c as u32);
        let d = encode_scalar(line_break_to_space(c) as u32);
        assert(d =~= line_break_bytes_to_spaces(e)) by {
            let v = c as u32;
            if has_width_1_encoding(v) {
                assert(leading_byte_width_1(v) as u32 == v) by (bit_vector)
                    requires has_width_1_encoding(v);
                if c == '\n' || c == '\r' {
                    assert((32u32 & 0x7F) as u8 == 32u8) by (bit_vector);
                    assert((' ' as u32) == 32);
                    assert(d =~= seq![32u8]);
                    assert(e[0] == 10 || e[0] == 13);
                } else {
                    assert(v != 10 && v != 13);
                    assert(d =~= e);
                }
            } else if has_width_2_encoding(v) {
                assert(leading_byte_width_2(v) >= 0x80 && last_continuation_byte(v) >= 0x80) by (bit_vector)
                    requires has_width_2_encoding(v);
            } else if has_width_3_encoding(v) {
                assert(leading_byte_width_3(v) >= 0x80 && second_last_continuation_byte(v) >= 0x80
                    && last_continuation_byte(v) >= 0x80) by (bit_vector)
                    requires has_width_3_encoding(v);
            } else {
                assert(leading_byte_width_4(v) >= 0x80 && third_last_continuation_byte(v) >= 0x80
                    && second_last_continuation_byte(v) >= 0x80 && last_continuation_byte(v) >= 0x80) by (bit_vector)
                    requires has_width_4_encoding(v);
            }
        }
        assert(encode_utf8(line_breaks_to_spaces(cs)) =~= line_break_bytes_to_spaces(encode_utf8(cs)));
    }
}

/// Longer character prefixes have strictly longer encodings.
pub proof fn lemma_encode_utf8_take_strict(cs: Seq<char>, k1: int, k2: int)
    requires
        0 <= k1 < k2 <= cs.len(),
    ensures
        encode_utf8(cs.take(k1)).len() < encode_utf8(cs.take(k2)).len(),
    decreases k2 - k1,
{
    lemma_encode_utf8_take_next(cs, k2 - 1);
    lemma_char_widths(cs[k2 - 1]);
    if k1 < k2 - 1 {
        lemma_encode_utf8_take_strict(cs, k1, k2 - 1);
    }
}

/// A character boundary of valid UTF-8 that lies before another one is a
/// character boundary of the prefix that ends at the later one.
pub proof fn lemma_boundary_in_prefix(bytes: Seq<u8>, b1: int, b2: int)
    requires
        valid_utf8(bytes),
        is_char_boundary(bytes, b1),
        is_char_boundary(bytes, b2),
        b1 <= b2,
    ensures
        0 <= b1 <= b2 <= bytes.len(),
        valid_utf8(bytes.take(b2)),
        is_char_boundary(bytes.take(b2), b1),
{
    broadcast use decode_utf8_encode_utf8, encode_utf8_valid_utf8;

    let cs = decode_utf8(bytes);
    lemma_char_boundary_is_prefix(cs, b1);
    lemma_char_boundary_is_prefix(cs, b2);
    let k1 = choose|k: int| 0 <= k <= cs.len() && #[trigger] encode_utf8(cs.take(k)).len() == b1;
    let k2 = choose|k: int| 0 <= k <= cs.len() && #[trigger] encode_utf8(cs.take(k)).len() == b2;
    if k1 > k2 {
        lemma_encode_utf8_take_strict(cs, k2, k1);
    }
    lemma_encode_utf8_prefix(cs, k2);
    assert(cs.take(k2).take(k1) =~= cs.take(k1));
    lemma_prefix_is_char_boundary(cs.take(k2), k1);
}

/// A strictly increasing sequence of values below `bound` has at most
/// `bound` elements.
pub proof fn lemma_increasing_len(s: Seq<usize>, bound: int)
    requires
        0 <= bound,
        forall|i: int, j: int| 0 <= i < j < s.len() ==> s[i] < s[j],
        forall|i: int| 0 <= i < s.len() ==> s[i] < bound,
    ensures
        s.len() <= bound,
    decreases s.len(),
{
    if s.len() > 0 {
        let init = s.drop_last();
        let top = s[s.len() - 1];
        assert(s.last() == top);
        assert(top < bound);
        assert forall|i: int| 0 <= i < init.len() implies init[i] < top by {
            assert(init[i] == s[i]);
            assert(s[i] < s[s.len() - 1]);
        }
        assert forall|i: int, j: int| 0 <= i < j < init.len() implies init[i] < init[j] by {
            assert(init[i] == s[i] && init[j] == s[j]);
        }
        lemma_increasing_len(init, top as int);
    }
}

/// Converting a character boundary of valid UTF-8 to a UTF-16 offset and
/// back gives the boundary again.
pub proof fn lemma_offset_utf16_roundtrip(bytes: Seq<u8>, b: int)
    requires
        valid_utf8(bytes),
        is_char_boundary(bytes, b),
    ensures
        utf16_to_utf8_offset(decode_utf8(bytes), utf16_len(decode_utf8(bytes.take(b))) as int) == b,
{
    broadcast use decode_utf8_encode_utf8, encode_utf8_decode_utf8;

    let cs = decode_utf8(bytes);
    lemma_char_boundary_is_prefix(cs, b);
    let k = choose|k: int| 0 <= k <= cs.len() && #[trigger] encode_utf8(cs.take(k)).len() == b;
    lemma_encode_utf8_prefix(cs, k);
    assert(decode_utf8(bytes.take(b)) == cs.take(k));
    lemma_utf16_roundtrip_prefix(cs, k);
}

/// The bytes of `text` with every line feed and carriage return turned into a space.
pub fn line_breaks_to_spaces_bytes(text: &str) -> (bytes: Vec<u8>)
    ensures
        bytes@ == line_break_bytes_to_spaces(text.spec_bytes()),
        valid_utf8(bytes@),
{
    let source = text.as_bytes();
    let mut bytes: Vec<u8> = Vec::with_capacity(source.len());
    let mut i: usize = 0;
    while i < source.len()
        invariant
            i <= source@.len(),
            bytes@ == line_break_bytes_to_spaces(source@.take(i as int)),
        decreases source@.len() - i,
    {
        let b = source[i];
        if b == 10 || b == 13 {
            bytes.push(32);
        } else {
            bytes.push(b);
        }
        assert(line_break_bytes_to_spaces(source@.take(i + 1)) =~= line_break_bytes_to_spaces(
            source@.take(i as int),
        ).push(line_break_byte_to_space(b)));
        i = i + 1;
    }
    proof {
        broadcast use encode_utf8_valid_utf8;

        assert(source@.take(source@.len() as int) =~= source@);
        lemma_line_breaks_encode(text@);
    }
    bytes
}

/// `char::len_utf8`.
pub fn char_len_utf8(c: char) -> (n: usize)
    ensures
        n == char_utf8_len(c),
{
    proof {
        broadcast use char_is_scalar;
    }
    let v = c as u32;
    if v <= 0x7F {
        1
    } else if v <= 0x7FF {
        2
    } else if v <= 0xFFFF {
        3
    } else {
        4
    }
}

/// `char::len_utf16`.
pub fn char_len_utf16(c: char) -> (n: usize)
    ensures
        n == char_utf16_len(c),
{
    if (c as u32) < 0x10000 {
        1
    } else {
        2
    }
}

/// Number of UTF-16 code units that encode `s`.
pub fn utf16_len_of(s: &str) -> (n: usize)
    ensures
        n == utf16_len(s@),
{
    let byte_len = s.as_bytes().len();
    let mut n: usize = 0;
    let chars = s.chars();
    proof {
        vstd::string::axiom_spec_iter(s);
    }
    for c in it: chars
        invariant
            it.seq() == s@,
            n == utf16_len(it.seq().take(it.index() as int)),
            it.index() <= s@.len(),
            encode_utf8(s@).len() == byte_len,
    {
        let ghost i = it.index();
        assert(s@.take(i + 1).drop_last() =~= s@.take(i as int));
        proof {
            lemma_utf16_le_utf8(s@.take(i + 1));
            lemma_encode_utf8_prefix(s@, i + 1);
        }
        n = n + char_len_utf16(c);
    }
    assert(s@.take(s@.len() as int) =~= s@);
    n
}

/// The UTF-8 byte offset of `s` that corresponds to the UTF-16 offset
/// `offset`, rounded up to a character boundary and clamped to the end.
pub fn utf8_offset_from_utf16(s: &str, offset: usize) -> (n: usize)
    ensures
        n == utf16_to_utf8_offset(s@, offset as int),
{
    let byte_len = s.as_bytes().len();
    let mut pos: usize = 0;
    let mut units: usize = 0;
    let mut taking = true;
    let mut result: usize = 0;
    let chars = s.chars();
    proof {
        vstd::string::axiom_spec_iter(s);
        assert(s@.skip(0) =~= s@);
        assert(s@.take(0) =~= Seq::<char>::empty());
    }
    for c in it: chars
        invariant
            it.seq() == s@,
            it.index() <= s@.len(),
            encode_utf8(s@).len() == byte_len,
            pos == encode_utf8(s@.take(it.index() as int)).len(),
            taking ==> units == utf16_len(s@.take(it.index() as int)),
            taking ==> result == pos,
            taking ==> utf16_to_utf8_offset(s@, offset as int) == pos + utf16_to_utf8_offset(
                s@.skip(it.index() as int),
                offset - units,
            ),
            !taking ==> result == utf16_to_utf8_offset(s@, offset as int),
    {
        let ghost i = it.index();
        proof {
            lemma_encode_utf8_take_next(s@, i as int);
            lemma_encode_utf8_prefix(s@, i + 1);
            lemma_char_widths(c);
            assert(s@.skip(i as int).drop_first() =~= s@.skip(i + 1));
            assert(s@.take(i + 1).drop_last() =~= s@.take(i as int));
            lemma_utf16_le_utf8(s@.take(i + 1));
        }
        if taking {
            if units >= offset {
                taking = false;
            } else {
                units = units + char_len_utf16(c);
                result = pos + char_len_utf8(c);
            }
        }
        pos = pos + char_len_utf8(c);
    }
    proof {
        assert(s@.skip(s@.len() as int) =~= Seq::<char>::empty());
    }
    result
}

/// Turning line breaks into spaces keeps the byte length and is idempotent:
/// normalised text has no line break left to turn.
pub proof fn law_line_break_normalisation(bytes: Seq<u8>)
    ensures
        line_break_bytes_to_spaces(bytes).len() == bytes.len(),
        line_break_bytes_to_spaces(line_break_bytes_to_spaces(bytes)) == line_break_bytes_to_spaces(bytes),
        forall|i: int|
            0 <= i < bytes.len() ==> #[trigger] line_break_bytes_to_spaces(bytes)[i] != 10
                && line_break_bytes_to_spaces(bytes)[i] != 13,
{
    assert(line_break_bytes_to_spaces(line_break_bytes_to_spaces(bytes)) =~= line_break_bytes_to_spaces(bytes));
}

} // verus!
