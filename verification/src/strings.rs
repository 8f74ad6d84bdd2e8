//! Character-level string operations: equality, prefixes, whitespace,
//! decimal formatting (Western and Bengali digits) and replacement of every
//! occurrence of a pattern.

use crate::outside::push_char;
use vstd::prelude::*;
use vstd::string::StringExecFns;
use vstd::string::StringSliceAdditionalSpecFns;
use vstd::utf8::*;

verus! {

broadcast use vstd::string::group_string_axioms;

/// The characters of `s`, collected.
pub fn chars_of(s: &str) -> (chars: Vec<char>)
    ensures
        chars@ == s@,
{
    let mut chars: Vec<char> = Vec::new();
    let iter = s.chars();
    proof {
        vstd::string::axiom_spec_iter(s);
    }
    for c in it: iter
        invariant
            it.seq() == s@,
            it.index() <= s@.len(),
            chars@ == s@.take(it.index() as int),
    {
        let ghost i = it.index();
        chars.push(c);
        assert(chars@ =~= s@.take(i + 1));
    }
    assert(s@.take(s@.len() as int) =~= s@);
    chars
}

/// Whether `a` and `b` hold the same characters.
pub fn str_eq(a: &str, b: &str) -> (same: bool)
    ensures
        same == (a@ == b@),
{
    proof {
        broadcast use encode_utf8_decode_utf8;

    }
    let x = a.as_bytes();
    let y = b.as_bytes();
    if x.len() != y.len() {
        return false;
    }
    let mut i: usize = 0;
    while i < x.len()
        invariant
            x@.len() == y@.len(),
            i <= x@.len(),
            x@ == a.spec_bytes(),
            y@ == b.spec_bytes(),
            forall|j: int| 0 <= j < i ==> x@[j] == y@[j],
        decreases x@.len() - i,
    {
        if x[i] != y[i] {
            return false;
        }
        i = i + 1;
    }
    assert(x@ =~= y@);
    assert(a@ == b@) by {
        broadcast use encode_utf8_decode_utf8;

        assert(decode_utf8(a.spec_bytes()) == a@);
        assert(decode_utf8(b.spec_bytes()) == b@);
    }
    true
}

/// Whether `s` starts with the characters of `prefix`.
pub fn str_starts_with(s: &str, prefix: &str) -> (starts: bool)
    ensures
        starts == (prefix@.len() <= s@.len() && s@.take(prefix@.len() as int) == prefix@),
{
    let cs = chars_of(s);
    let ps = chars_of(prefix);
    if ps.len() > cs.len() {
        return false;
    }
    let mut i: usize = 0;
    while i < ps.len()
        invariant
            ps@ == prefix@,
            cs@ == s@,
            ps@.len() <= cs@.len(),
            i <= ps@.len(),
            forall|j: int| 0 <= j < i ==> cs@[j] == ps@[j],
        decreases ps@.len() - i,
    {
        if cs[i] != ps[i] {
            assert(s@.take(prefix@.len() as int)[i as int] != prefix@[i as int]);
            return false;
        }
        i = i + 1;
    }
    assert(s@.take(prefix@.len() as int) =~= prefix@);
    true
}

/// `char::is_whitespace`: the Unicode `White_Space` property.
pub open spec fn is_white_space(c: char) -> bool {
    let v = c as u32;
    ||| 0x09 <= v <= 0x0D
    ||| v == 0x20
    ||| v == 0x85
    ||| v == 0xA0
    ||| v == 0x1680
    ||| 0x2000 <= v <= 0x200A
    ||| v == 0x2028
    ||| v == 0x2029
    ||| v == 0x202F
    ||| v == 0x205F
    ||| v == 0x3000
}

/// `char::is_whitespace`.
pub fn char_is_whitespace(c: char) -> (white: bool)
    ensures
        white == is_white_space(c),
{
    let v = c as u32;
    (0x09 <= v && v <= 0x0D) || v == 0x20 || v == 0x85 || v == 0xA0 || v == 0x1680 || (0x2000 <= v
        && v <= 0x200A) || v == 0x2028 || v == 0x2029 || v == 0x202F || v == 0x205F || v == 0x3000
}

/// Every character of `s` is white space, that is, `s.trim()` is empty.
pub open spec fn is_blank(s: Seq<char>) -> bool {
    forall|i: int| 0 <= i < s.len() ==> is_white_space(#[trigger] s[i])
}

/// Whether `s.trim()` is empty.
pub fn str_is_blank(s: &str) -> (blank: bool)
    ensures
        blank == is_blank(s@),
{
    let cs = chars_of(s);
    let mut i: usize = 0;
    while i < cs.len()
        invariant
            cs@ == s@,
            i <= cs@.len(),
            forall|j: int| 0 <= j < i ==> is_white_space(#[trigger] cs@[j]),
        decreases cs@.len() - i,
    {
        if !char_is_whitespace(cs[i]) {
            return false;
        }
        i = i + 1;
    }
    true
}

/// The Western digit for `d`.
pub open spec fn ascii_digit(d: int) -> char {
    seq!['0', '1', '2', '3', '4', '5', '6', '7', '8', '9'][d]
}

/// The Bengali digit for `d`.
pub open spec fn bengali_digit(d: int) -> char {
    seq!['০', '১', '২', '৩', '৪', '৫', '৬', '৭', '৮', '৯'][d]
}

/// The decimal digits of `n`, most significant first, in Bengali digits
/// when `bengali`.
pub open spec fn decimal(n: nat, bengali: bool) -> Seq<char>
    decreases n,
{
    let d = (n % 10) as int;
    let digit = if bengali {
        bengali_digit(d)
    } else {
        ascii_digit(d)
    };
    if n < 10 {
        seq![digit]
    } else {
        decimal(n / 10, bengali).push(digit)
    }
}

/// A Western digit turned into the Bengali digit of the same value; any
/// other character is left as it is.
pub open spec fn to_bengali_digit(c: char) -> char {
    if '0' <= c <= '9' {
        bengali_digit(c as int - '0' as int)
    } else {
        c
    }
}

/// The Bengali digits of a number are its Western digits, each turned into
/// the Bengali digit of the same value.
pub proof fn lemma_decimal_bengali(n: nat)
    ensures
        decimal(n, true) == decimal(n, false).map_values(|c: char| to_bengali_digit(c)),
    decreases n,
{
    let d = (n % 10) as int;
    assert(to_bengali_digit(ascii_digit(d)) == bengali_digit(d)) by {
        assert(0 <= d < 10);
        assert(ascii_digit(d) as int == '0' as int + d);
    }
    if n >= 10 {
        lemma_decimal_bengali(n / 10);
    }
    assert(decimal(n, true) =~= decimal(n, false).map_values(|c: char| to_bengali_digit(c)));
}

/// Appends the decimal digits of `n` to `out`.
pub fn push_decimal(out: &mut String, n: u64, bengali: bool)
    ensures
        final(out)@ == old(out)@ + decimal(n as nat, bengali),
    decreases n,
{
    if n >= 10 {
        push_decimal(out, n / 10, bengali);
    }
    let d = n % 10;
    let digit = if bengali {
        match d {
            0 => '০',
            1 => '১',
            2 => '২',
            3 => '৩',
            4 => '৪',
            5 => '৫',
            6 => '৬',
            7 => '৭',
            8 => '৮',
            _ => '৯',
        }
    } else {
        match d {
            0 => '0',
            1 => '1',
            2 => '2',
            3 => '3',
            4 => '4',
            5 => '5',
            6 => '6',
            7 => '7',
            8 => '8',
            _ => '9',
        }
    };
    push_char(out, digit);
    assert(final(out)@ =~= old(out)@ + decimal(n as nat, bengali));
}

/// `s` with every non-overlapping occurrence of the non-empty `pattern`,
/// found from the left, replaced by `replacement`.
pub open spec fn replace_all(s: Seq<char>, pattern: Seq<char>, replacement: Seq<char>) -> Seq<char>
    decreases s.len(),
{
    if s.len() == 0 {
        seq![]
    } else if 0 < pattern.len() <= s.len() && s.take(pattern.len() as int) == pattern {
        replacement + replace_all(s.skip(pattern.len() as int), pattern, replacement)
    } else {
        seq![s[0]] + replace_all(s.drop_first(), pattern, replacement)
    }
}

/// `str::replace` with a non-empty pattern.
pub fn replace_all_str(s: &str, pattern: &str, replacement: &str) -> (replaced: String)
    requires
        pattern@.len() > 0,
    ensures
        replaced@ == replace_all(s@, pattern@, replacement@),
{
    let cs = chars_of(s);
    let ps = chars_of(pattern);
    let mut out = String::new();
    let mut i: usize = 0;
    let n = cs.len();
    proof {
        assert(s@.skip(0) =~= s@);
    }
    while i < cs.len()
        invariant
            cs@ == s@,
            ps@ == pattern@,
            ps@.len() > 0,
            n == cs@.len(),
            i <= cs@.len(),
            out@ + replace_all(s@.skip(i as int), pattern@, replacement@) == replace_all(
                s@,
                pattern@,
                replacement@,
            ),
        decreases cs@.len() - i,
    {
        let ghost rest = s@.skip(i as int);
        let mut matches = ps.len() <= cs.len() - i;
        let mut j: usize = 0;
        while matches && j < ps.len()
            invariant
                cs@ == s@,
                ps@ == pattern@,
                i < cs@.len(),
                rest == s@.skip(i as int),
                rest.len() == cs@.len() - i,
                cs@.len() <= usize::MAX,
                j <= ps@.len(),
                matches ==> ps@.len() <= rest.len(),
                matches ==> forall|k: int| 0 <= k < j ==> rest[k] == ps@[k],
                !matches ==> !(ps@.len() <= rest.len() && rest.take(ps@.len() as int) == ps@),
            decreases ps@.len() - j + (if matches { 1int } else { 0int }),
        {
            if cs[i + j] != ps[j] {
                assert(rest.take(ps@.len() as int)[j as int] != ps@[j as int]);
                matches = false;
            } else {
                j = j + 1;
            }
        }
        if matches {
            assert(rest.take(ps@.len() as int) =~= ps@);
            assert(rest.skip(ps@.len() as int) =~= s@.skip(i + ps@.len()));
            out.append(replacement);
            i = i + ps.len();
        } else {
            assert(rest.drop_first() =~= s@.skip(i + 1));
            assert(rest[0] == cs@[i as int]);
            push_char(&mut out, cs[i]);
            i = i + 1;
        }
    }
    assert(s@.skip(i as int) =~= Seq::<char>::empty());
    assert(out@ + Seq::<char>::empty() =~= out@);
    out
}

/// Where the first `c` of `s` stands, or the length of `s` when it has none.
pub open spec fn first_index_of(s: Seq<char>, c: char) -> int
    decreases s.len(),
{
    if s.len() == 0 || s[0] == c {
        0
    } else {
        1 + first_index_of(s.drop_first(), c)
    }
}

/// The first `c` of `s` stands at `first_index_of(s, c)`, and no `c` before it.
pub proof fn lemma_first_index_of(s: Seq<char>, c: char)
    ensures
        0 <= first_index_of(s, c) <= s.len(),
        first_index_of(s, c) < s.len() ==> s[first_index_of(s, c)] == c,
        forall|j: int| 0 <= j < first_index_of(s, c) ==> s[j] != c,
    decreases s.len(),
{
    if s.len() > 0 && s[0] != c {
        lemma_first_index_of(s.drop_first(), c);
        assert forall|j: int| 0 <= j < first_index_of(s, c) implies s[j] != c by {
            if j > 0 {
                assert(s[j] == s.drop_first()[j - 1]);
            }
        }
    }
}

/// Where the first `c` of `cs` stands, or the length of `cs` when it has none.
pub fn find_char(cs: &Vec<char>, c: char) -> (index: usize)
    ensures
        index == first_index_of(cs@, c),
{
    proof {
        lemma_first_index_of(cs@, c);
    }
    let mut i: usize = 0;
    while i < cs.len()
        invariant
            i <= cs@.len(),
            forall|j: int| 0 <= j < i ==> cs@[j] != c,
            0 <= first_index_of(cs@, c) <= cs@.len(),
            first_index_of(cs@, c) < cs@.len() ==> cs@[first_index_of(cs@, c)] == c,
            forall|j: int| 0 <= j < first_index_of(cs@, c) ==> cs@[j] != c,
        decreases cs@.len() - i,
    {
        if cs[i] == c {
            return i;
        }
        i = i + 1;
    }
    i
}

/// The characters of `cs` from `start` up to `end`, as a string.
pub fn collect_range(cs: &Vec<char>, start: usize, end: usize) -> (text: String)
    requires
        start <= end <= cs@.len(),
    ensures
        text@ == cs@.subrange(start as int, end as int),
{
    let mut text = String::new();
    let mut i: usize = start;
    while i < end
        invariant
            start <= i <= end <= cs@.len(),
            text@ == cs@.subrange(start as int, i as int),
        decreases end - i,
    {
        push_char(&mut text, cs[i]);
        assert(text@ =~= cs@.subrange(start as int, i + 1));
        i = i + 1;
    }
    text
}

/// Where the characters of `s` start once leading white space is skipped.
pub open spec fn trim_start_index(s: Seq<char>) -> int
    decreases s.len(),
{
    if s.len() == 0 || !is_white_space(s[0]) {
        0
    } else {
        1 + trim_start_index(s.drop_first())
    }
}

/// Where the characters of `s` end once trailing white space is dropped.
pub open spec fn trim_end_index(s: Seq<char>) -> int
    decreases s.len(),
{
    if s.len() == 0 || !is_white_space(s.last()) {
        s.len() as int
    } else {
        trim_end_index(s.drop_last())
    }
}

/// `str::trim`: `s` without its leading and trailing white space.
pub open spec fn trimmed(s: Seq<char>) -> Seq<char> {
    let end = trim_end_index(s);
    s.take(end).skip(trim_start_index(s.take(end)))
}

proof fn lemma_trim_start_index(s: Seq<char>)
    ensures
        0 <= trim_start_index(s) <= s.len(),
        forall|j: int| 0 <= j < trim_start_index(s) ==> is_white_space(#[trigger] s[j]),
        trim_start_index(s) < s.len() ==> !is_white_space(s[trim_start_index(s)]),
    decreases s.len(),
{
    if s.len() > 0 && is_white_space(s[0]) {
        lemma_trim_start_index(s.drop_first());
        assert forall|j: int| 0 <= j < trim_start_index(s) implies is_white_space(#[trigger] s[j]) by {
            if j > 0 {
                assert(s[j] == s.drop_first()[j - 1]);
            }
        }
    }
}

proof fn lemma_trim_end_index(s: Seq<char>)
    ensures
        0 <= trim_end_index(s) <= s.len(),
        forall|j: int| trim_end_index(s) <= j < s.len() ==> is_white_space(#[trigger] s[j]),
        trim_end_index(s) > 0 ==> !is_white_space(s[trim_end_index(s) - 1]),
    decreases s.len(),
{
    if s.len() > 0 && is_white_space(s.last()) {
        lemma_trim_end_index(s.drop_last());
        assert forall|j: int| trim_end_index(s) <= j < s.len() implies is_white_space(#[trigger] s[j]) by {
            if j < s.len() - 1 {
                assert(s[j] == s.drop_last()[j]);
            }
        }
    }
}

/// `s` without its leading and trailing white space, as a string.
pub fn trim_chars(cs: &Vec<char>) -> (text: String)
    ensures
        text@ == trimmed(cs@),
{
    proof {
        lemma_trim_end_index(cs@);
    }
    let mut end: usize = cs.len();
    assert(cs@.take(end as int) =~= cs@);
    while end > 0 && char_is_whitespace(cs[end - 1])
        invariant
            end <= cs@.len(),
            trim_end_index(cs@) == trim_end_index(cs@.take(end as int)),
        decreases end,
    {
        assert(cs@.take(end as int).drop_last() =~= cs@.take(end - 1));
        end = end - 1;
    }
    assert(trim_end_index(cs@.take(end as int)) == end as int) by {
        if end > 0 {
            assert(cs@.take(end as int).last() == cs@[end - 1]);
        }
    }
    let ghost head = cs@.take(end as int);
    proof {
        lemma_trim_start_index(head);
    }
    let mut start: usize = 0;
    assert(head.skip(0) =~= head);
    while start < end && char_is_whitespace(cs[start])
        invariant
            start <= end <= cs@.len(),
            head == cs@.take(end as int),
            trim_start_index(head) == start + trim_start_index(head.skip(start as int)),
        decreases end - start,
    {
        assert(head.skip(start as int)[0] == cs@[start as int]);
        assert(head.skip(start as int).drop_first() =~= head.skip(start + 1));
        start = start + 1;
    }
    assert(trim_start_index(head.skip(start as int)) == 0) by {
        if start < end {
            assert(head.skip(start as int)[0] == cs@[start as int]);
        }
    }
    let text = collect_range(cs, start, end);
    assert(text@ =~= trimmed(cs@));
    text
}

/// The value of a run of decimal digits.
pub open spec fn digits_value(ds: Seq<char>) -> nat
    decreases ds.len(),
{
    if ds.len() == 0 {
        0
    } else {
        digits_value(ds.drop_last()) * 10 + (ds.last() as nat - '0' as nat) as nat
    }
}

/// Every character is an ASCII decimal digit.
pub open spec fn all_ascii_digits(ds: Seq<char>) -> bool {
    forall|i: int| 0 <= i < ds.len() ==> '0' <= #[trigger] ds[i] <= '9'
}

/// What `str::parse::<usize>` reads: an optional `+` followed by at least
/// one ASCII digit, whose value fits in a `usize`.
pub open spec fn parsed_usize(s: Seq<char>) -> Option<usize> {
    let ds = if s.len() > 0 && s[0] == '+' {
        s.drop_first()
    } else {
        s
    };
    if ds.len() > 0 && all_ascii_digits(ds) && digits_value(ds) <= usize::MAX {
        Some(digits_value(ds) as usize)
    } else {
        None
    }
}

/// Appending digits never makes a number smaller.
proof fn lemma_digits_value_grows(ds: Seq<char>, i: int)
    requires
        0 <= i <= ds.len(),
        all_ascii_digits(ds),
    ensures
        digits_value(ds.take(i)) <= digits_value(ds),
    decreases ds.len() - i,
{
    if i < ds.len() {
        lemma_digits_value_grows(ds, i + 1);
        assert(ds.take(i + 1).drop_last() =~= ds.take(i));
        assert('0' <= ds[i] <= '9');
    } else {
        assert(ds.take(i) =~= ds);
    }
}

/// `str::parse::<usize>`: the number `s` writes in decimal, if it writes one
/// that fits.
pub fn parse_usize(s: &str) -> (value: Option<usize>)
    ensures
        value == parsed_usize(s@),
{
    let cs = chars_of(s);
    let start: usize = if cs.len() > 0 && cs[0] == '+' {
        1
    } else {
        0
    };
    let ghost ds = s@.skip(start as int);
    proof {
        if start == 1 {
            assert(ds =~= s@.drop_first());
        } else {
            assert(ds =~= s@);
        }
    }
    if start >= cs.len() {
        return None;
    }
    let mut value: usize = 0;
    let mut i: usize = start;
    while i < cs.len()
        invariant
            cs@ == s@,
            start <= i <= cs@.len(),
            ds == s@.skip(start as int),
            ds == (if s@.len() > 0 && s@[0] == '+' {
                s@.drop_first()
            } else {
                s@
            }),
            all_ascii_digits(ds.take(i - start)),
            value == digits_value(ds.take(i - start)),
        decreases cs@.len() - i,
    {
        let c = cs[i];
        assert(ds[i - start] == c);
        if c < '0' || '9' < c {
            assert(!all_ascii_digits(ds));
            return None;
        }
        let d = (c as u32 - '0' as u32) as usize;
        assert(ds.take(i - start + 1).drop_last() =~= ds.take(i - start));
        assert(all_ascii_digits(ds.take(i - start + 1)));
        if value > (usize::MAX - d) / 10 {
            proof {
                assert(digits_value(ds.take(i - start + 1)) > usize::MAX) by (nonlinear_arith)
                    requires
                        value > (usize::MAX - d) / 10,
                        digits_value(ds.take(i - start + 1)) == value * 10 + d,
                        d <= 9,
                ;
                if all_ascii_digits(ds) {
                    lemma_digits_value_grows(ds, i - start + 1);
                }
            }
            return None;
        }
        value = value * 10 + d;
        i = i + 1;
    }
    assert(ds.take(i - start) =~= ds);
    Some(value)
}

} // verus!
