//! Named colours: their names, the palette order and their HSL components.

use crate::outside::push_char;
use crate::strings::{
    chars_of, collect_range, find_char, first_index_of, lemma_first_index_of, parse_usize,
    parsed_usize, str_eq, str_starts_with, trim_chars, trimmed,
};
use vstd::prelude::*;

verus! {

broadcast use vstd::string::group_string_axioms;

/// A named palette colour.
#[derive(Debug, Clone, Copy, PartialEq, Eq, Hash, Structural)]
pub enum ColorName {
    White,
    Black,
    Red,
    Blue,
    Green,
    Yellow,
    Pink,
    Orange,
    Cyan,
    Purple,
}

/// The error for a string that names no colour.
#[derive(Debug, Clone, Copy, PartialEq, Eq, Structural)]
pub struct InvalidColorName;

/// `c` with an ASCII upper-case letter turned into lower case.
pub open spec fn ascii_lower(c: char) -> char {
    if 'A' <= c <= 'Z' {
        ((c as u32) + 32) as char
    } else {
        c
    }
}

/// `str::to_ascii_lowercase`.
pub fn to_ascii_lowercase(s: &str) -> (lower: String)
    ensures
        lower@ == s@.map_values(|c: char| ascii_lower(c)),
{
    let cs = chars_of(s);
    let mut lower = String::new();
    let mut i: usize = 0;
    while i < cs.len()
        invariant
            cs@ == s@,
            i <= cs@.len(),
            lower@ == s@.take(i as int).map_values(|c: char| ascii_lower(c)),
        decreases cs@.len() - i,
    {
        let c = cs[i];
        let l = if 'A' <= c && c <= 'Z' {
            ((c as u8) + 32) as char
        } else {
            c
        };
        assert(l == ascii_lower(c));
        push_char(&mut lower, l);
        assert(lower@ =~= s@.take(i + 1).map_values(|c: char| ascii_lower(c)));
        i = i + 1;
    }
    assert(s@.take(s@.len() as int) =~= s@);
    lower
}

/// The colour that `name`, lowercased, names.
pub open spec fn color_named(name: Seq<char>) -> Option<ColorName> {
    if name == "white"@ {
        Some(ColorName::White)
    } else if name == "black"@ {
        Some(ColorName::Black)
    } else if name == "red"@ {
        Some(ColorName::Red)
    } else if name == "blue"@ {
        Some(ColorName::Blue)
    } else if name == "green"@ {
        Some(ColorName::Green)
    } else if name == "yellow"@ {
        Some(ColorName::Yellow)
    } else if name == "pink"@ {
        Some(ColorName::Pink)
    } else if name == "orange"@ {
        Some(ColorName::Orange)
    } else if name == "cyan"@ {
        Some(ColorName::Cyan)
    } else if name == "purple"@ {
        Some(ColorName::Purple)
    } else {
        None
    }
}

impl ColorName {
    /// The colour named by `value`, compared without regard to ASCII case.
    pub fn parse(value: &str) -> (color: Result<ColorName, InvalidColorName>)
        ensures
            color == (match color_named(value@.map_values(|c: char| ascii_lower(c))) {
                Some(named) => Ok(named),
                None => Err(InvalidColorName),
            }),
    {
        let lower = to_ascii_lowercase(value);
        let name = lower.as_str();
        if str_eq(name, "white") {
            Ok(ColorName::White)
        } else if str_eq(name, "black") {
            Ok(ColorName::Black)
        } else if str_eq(name, "red") {
            Ok(ColorName::Red)
        } else if str_eq(name, "blue") {
            Ok(ColorName::Blue)
        } else if str_eq(name, "green") {
            Ok(ColorName::Green)
        } else if str_eq(name, "yellow") {
            Ok(ColorName::Yellow)
        } else if str_eq(name, "pink") {
            Ok(ColorName::Pink)
        } else if str_eq(name, "orange") {
            Ok(ColorName::Orange)
        } else if str_eq(name, "cyan") {
            Ok(ColorName::Cyan)
        } else if str_eq(name, "purple") {
            Ok(ColorName::Purple)
        } else {
            Err(InvalidColorName)
        }
    }

    /// The hue (degrees), saturation and lightness (percent) of the colour.
    pub fn hsl(&self) -> (components: (u16, u8, u8))
        ensures
            components == (match *self {
                ColorName::White => (0u16, 0u8, 100u8),
                ColorName::Black => (0, 0, 0),
                ColorName::Red => (0, 84, 60),
                ColorName::Blue => (221, 83, 53),
                ColorName::Green => (142, 71, 45),
                ColorName::Yellow => (45, 93, 47),
                ColorName::Pink => (330, 81, 60),
                ColorName::Orange => (24, 95, 53),
                ColorName::Cyan => (189, 94, 43),
                ColorName::Purple => (271, 81, 56),
            }),
    {
        match self {
            ColorName::White => (0, 0, 100),
            ColorName::Black => (0, 0, 0),
            ColorName::Red => (0, 84, 60),
            ColorName::Blue => (221, 83, 53),
            ColorName::Green => (142, 71, 45),
            ColorName::Yellow => (45, 93, 47),
            ColorName::Pink => (330, 81, 60),
            ColorName::Orange => (24, 95, 53),
            ColorName::Cyan => (189, 94, 43),
            ColorName::Purple => (271, 81, 56),
        }
    }

    /// The chromatic colours, in palette order.
    pub fn all() -> (colors: [Self; 8])
        ensures
            colors@ == seq![
                ColorName::Red,
                ColorName::Blue,
                ColorName::Green,
                ColorName::Yellow,
                ColorName::Pink,
                ColorName::Orange,
                ColorName::Cyan,
                ColorName::Purple,
            ],
    {
        let colors = [
            ColorName::Red,
            ColorName::Blue,
            ColorName::Green,
            ColorName::Yellow,
            ColorName::Pink,
            ColorName::Orange,
            ColorName::Cyan,
            ColorName::Purple,
        ];
        assert(colors@ =~= seq![
            ColorName::Red,
            ColorName::Blue,
            ColorName::Green,
            ColorName::Yellow,
            ColorName::Pink,
            ColorName::Orange,
            ColorName::Cyan,
            ColorName::Purple,
        ]);
        colors
    }
}

impl<'a> TryFrom<&'a str> for ColorName {
    type Error = InvalidColorName;

    fn try_from(value: &'a str) -> (color: Result<ColorName, InvalidColorName>) {
        ColorName::parse(value)
    }
}

impl<'a> vstd::std_specs::convert::TryFromSpecImpl<&'a str> for ColorName {
    open spec fn obeys_try_from_spec() -> bool {
        true
    }

    open spec fn try_from_spec(value: &'a str) -> Result<ColorName, InvalidColorName> {
        match color_named(value@.map_values(|c: char| ascii_lower(c))) {
            Some(named) => Ok(named),
            None => Err(InvalidColorName),
        }
    }
}

/// How a colour value is written: in hexadecimal notation (it starts with
/// `#`), or as a colour name with a shade after `-` (500 when it has none or
/// it is not a number) and an opacity in percent after `/`.
#[derive(Debug, PartialEq, Eq)]
pub enum ColorSpec {
    Hex,
    Named { name: String, scale: usize, opacity: Option<String> },
}

/// The part of `value` before its first `/`.
pub open spec fn before_slash(value: Seq<char>) -> Seq<char> {
    value.take(first_index_of(value, '/'))
}

/// The colour name of `value`: before the first `-` of its part before the
/// first `/`.
pub open spec fn name_part(value: Seq<char>) -> Seq<char> {
    before_slash(value).take(first_index_of(before_slash(value), '-'))
}

/// The shade of `value`: the number after the first `-` of its part before
/// the first `/`, or 500 when there is no `-` or no number there.
pub open spec fn shade_part(value: Seq<char>) -> usize {
    let head = before_slash(value);
    let dash = first_index_of(head, '-');
    if dash < head.len() {
        match parsed_usize(head.skip(dash + 1)) {
            Some(shade) => shade,
            None => 500,
        }
    } else {
        500
    }
}

/// The opacity text of `value`: everything after its first `/`, if it has one.
pub open spec fn opacity_part(value: Seq<char>) -> Option<Seq<char>> {
    let slash = first_index_of(value, '/');
    if slash < value.len() {
        Some(value.skip(slash + 1))
    } else {
        None
    }
}

/// The parts of the colour value `value`.
pub fn split_color_spec(value: &str) -> (spec: ColorSpec)
    ensures
        (spec is Hex) == (value@.len() > 0 && value@[0] == '#'),
        spec matches ColorSpec::Named { name, scale, opacity } ==> {
            &&& name@ == name_part(value@)
            &&& scale == shade_part(value@)
            &&& (opacity is Some) == (opacity_part(value@) is Some)
            &&& (opacity matches Some(text) ==> Some(text@) == opacity_part(value@))
        },
{
    let cs = chars_of(value);
    if cs.len() > 0 && cs[0] == '#' {
        return ColorSpec::Hex;
    }
    proof {
        lemma_first_index_of(value@, '/');
    }
    let slash = find_char(&cs, '/');
    let opacity = if slash < cs.len() {
        Some(collect_range(&cs, slash + 1, cs.len()))
    } else {
        None
    };
    let head_text = collect_range(&cs, 0, slash);
    let head = chars_of(head_text.as_str());
    assert(head@ =~= before_slash(value@));
    proof {
        lemma_first_index_of(head@, '-');
    }
    let dash = find_char(&head, '-');
    let name = collect_range(&head, 0, dash);
    assert(name@ =~= name_part(value@));
    let scale = if dash < head.len() {
        let shade = collect_range(&head, dash + 1, head.len());
        assert(shade@ =~= head@.skip(dash + 1));
        match parse_usize(shade.as_str()) {
            Some(v) => v,
            None => 500,
        }
    } else {
        500
    };
    proof {
        if slash < cs.len() {
            assert(cs@.subrange(slash + 1, cs@.len() as int) =~= value@.skip(slash + 1));
        }
    }
    ColorSpec::Named { name, scale, opacity }
}

/// The part of `s` before its first `c` (all of `s` when it has none).
pub open spec fn piece_before(s: Seq<char>, c: char) -> Seq<char> {
    s.take(first_index_of(s, c))
}

/// What follows the first `c` of `s`, if it has one.
pub open spec fn rest_after(s: Seq<char>, c: char) -> Option<Seq<char>> {
    let i = first_index_of(s, c);
    if i < s.len() {
        Some(s.skip(i + 1))
    } else {
        None
    }
}

/// The characters of `cs` from `start` up to `end`.
fn sub_chars(cs: &Vec<char>, start: usize, end: usize) -> (part: Vec<char>)
    requires
        start <= end <= cs@.len(),
    ensures
        part@ == cs@.subrange(start as int, end as int),
{
    let mut part: Vec<char> = Vec::new();
    let mut i: usize = start;
    while i < end
        invariant
            start <= i <= end <= cs@.len(),
            part@ == cs@.subrange(start as int, i as int),
        decreases end - i,
    {
        part.push(cs[i]);
        assert(part@ =~= cs@.subrange(start as int, i + 1));
        i = i + 1;
    }
    part
}

/// `cs` cut at its first `c`: the part before it and, if there is one, the
/// part after it.
fn split_at_first(cs: &Vec<char>, c: char) -> (parts: (Vec<char>, Option<Vec<char>>))
    ensures
        parts.0@ == piece_before(cs@, c),
        (parts.1 is Some) == (rest_after(cs@, c) is Some),
        parts.1 matches Some(rest) ==> Some(rest@) == rest_after(cs@, c),
{
    proof {
        lemma_first_index_of(cs@, c);
    }
    let i = find_char(cs, c);
    let head = sub_chars(cs, 0, i);
    assert(head@ =~= piece_before(cs@, c));
    if i < cs.len() {
        let rest = sub_chars(cs, i + 1, cs.len());
        assert(rest@ =~= cs@.skip(i + 1));
        (head, Some(rest))
    } else {
        (head, None)
    }
}

/// `s` ends with `deg`.
pub open spec fn ends_with_deg(s: Seq<char>) -> bool {
    s.len() >= 3 && s.skip(s.len() - 3) == seq!['d', 'e', 'g']
}

/// `str::trim_end_matches("deg")`: `s` with every trailing `deg` removed.
pub open spec fn without_deg(s: Seq<char>) -> Seq<char>
    decreases s.len(),
{
    if ends_with_deg(s) {
        without_deg(s.take(s.len() - 3))
    } else {
        s
    }
}

fn has_deg_suffix(cs: &Vec<char>, end: usize) -> (deg: bool)
    requires
        end <= cs@.len(),
    ensures
        deg == ends_with_deg(cs@.take(end as int)),
{
    let deg = end >= 3 && cs[end - 3] == 'd' && cs[end - 2] == 'e' && cs[end - 1] == 'g';
    proof {
        if end >= 3 {
            let t = cs@.take(end as int);
            if deg {
                assert(t.skip(t.len() - 3) =~= seq!['d', 'e', 'g']);
            } else {
                assert(t.skip(t.len() - 3)[0] == cs@[end - 3]);
                assert(t.skip(t.len() - 3)[1] == cs@[end - 2]);
                assert(t.skip(t.len() - 3)[2] == cs@[end - 1]);
            }
        }
    }
    deg
}

/// The text between the parentheses of a trimmed `linear-gradient(…)`.
pub open spec fn gradient_inner(value: Seq<char>) -> Option<Seq<char>> {
    let t = trimmed(value);
    let prefix = seq!['l', 'i', 'n', 'e', 'a', 'r', '-', 'g', 'r', 'a', 'd', 'i', 'e', 'n', 't', '('];
    if t.len() >= 17 && t.take(16) == prefix && t.last() == ')' {
        Some(t.subrange(16, t.len() - 1))
    } else {
        None
    }
}

/// A stop of a gradient: the trimmed text before the next comma.
pub open spec fn stop_text(s: Seq<char>) -> Seq<char> {
    trimmed(piece_before(s, ','))
}

/// The stop after the next comma of `s`, if there is a comma.
pub open spec fn next_stop(s: Seq<char>) -> Option<Seq<char>> {
    match rest_after(s, ',') {
        Some(rest) => Some(stop_text(rest)),
        None => None,
    }
}

/// The angle text, first stop and second stop of the comma-separated parts
/// of `inner`: when the first part ends with `deg` it is the angle (with its
/// `deg` removed) and the stops follow; otherwise it is the first stop.
pub open spec fn gradient_parts_spec(inner: Seq<char>) -> (
    Option<Seq<char>>,
    Option<Seq<char>>,
    Option<Seq<char>>,
) {
    let first = stop_text(inner);
    if ends_with_deg(first) {
        (
            Some(without_deg(first)),
            next_stop(inner),
            match rest_after(inner, ',') {
                Some(rest) => next_stop(rest),
                None => None,
            },
        )
    } else {
        (None, Some(first), next_stop(inner))
    }
}

/// The parts of a `linear-gradient(…)` background: the text of its angle
/// (before `deg`) when it gives one, and the texts of its two colour stops,
/// each missing when the value stops short of it.
#[derive(Debug, PartialEq, Eq)]
pub struct GradientParts {
    pub angle: Option<String>,
    pub from: Option<String>,
    pub to: Option<String>,
}

/// The characters of an optional string.
pub open spec fn text_of(text: Option<String>) -> Option<Seq<char>> {
    match text {
        Some(s) => Some(s@),
        None => None,
    }
}

fn trimmed_stop(cs: &Vec<char>) -> (stop: String)
    ensures
        stop@ == stop_text(cs@),
{
    let (head, _) = split_at_first(cs, ',');
    trim_chars(&head)
}

fn following_stop(cs: &Vec<char>) -> (stop: (Option<String>, Option<Vec<char>>))
    ensures
        text_of(stop.0) == next_stop(cs@),
        (stop.1 is Some) == (rest_after(cs@, ',') is Some),
        stop.1 matches Some(rest) ==> Some(rest@) == rest_after(cs@, ','),
{
    let (_, rest) = split_at_first(cs, ',');
    match rest {
        Some(r) => (Some(trimmed_stop(&r)), Some(r)),
        None => (None, None),
    }
}

/// The parts of `value` when it is a `linear-gradient(…)` background (once
/// trimmed), else `None`.
pub fn split_linear_gradient(value: &str) -> (parts: Option<GradientParts>)
    ensures
        (parts is Some) == (gradient_inner(value@) is Some),
        parts matches Some(p) ==> (text_of(p.angle), text_of(p.from), text_of(p.to))
            == gradient_parts_spec(gradient_inner(value@)->0),
{
    let cs = chars_of(value);
    let t_text = trim_chars(&cs);
    let t = chars_of(t_text.as_str());
    let ghost prefix = seq!['l', 'i', 'n', 'e', 'a', 'r', '-', 'g', 'r', 'a', 'd', 'i', 'e', 'n', 't', '('];
    proof {
        reveal_strlit("linear-gradient(");
        assert("linear-gradient("@ =~= prefix);
    }
    if t.len() < 17 || !str_starts_with(t_text.as_str(), "linear-gradient(") || t[t.len() - 1] != ')' {
        return None;
    }
    let inner = sub_chars(&t, 16, t.len() - 1);
    assert(t@.take(16) =~= prefix);
    assert(inner@ =~= gradient_inner(value@)->0);
    let first_text = trimmed_stop(&inner);
    let first = chars_of(first_text.as_str());
    assert(first@.take(first@.len() as int) =~= first@);
    if has_deg_suffix(&first, first.len()) {
        let mut end = first.len();
        while has_deg_suffix(&first, end)
            invariant
                end <= first@.len(),
                without_deg(first@) == without_deg(first@.take(end as int)),
            decreases end,
        {
            assert(first@.take(end as int).take(end - 3) =~= first@.take(end - 3));
            end = end - 3;
        }
        let angle = collect_range(&first, 0, end);
        assert(angle@ =~= first@.take(end as int));
        assert(angle@ == without_deg(first@));
        let (from, rest) = following_stop(&inner);
        let to = match rest {
            Some(r) => following_stop(&r).0,
            None => None,
        };
        Some(GradientParts { angle: Some(angle), from, to })
    } else {
        let (to, _) = following_stop(&inner);
        Some(GradientParts { angle: None, from: Some(first_text), to })
    }
}

/// Parsing a colour name ignores ASCII case: a string names the same colour
/// as its ASCII-lowercased form (lowercasing twice changes nothing more).
pub proof fn law_parse_ignores_ascii_case(name: Seq<char>)
    ensures
        name.map_values(|c: char| ascii_lower(c)).map_values(|c: char| ascii_lower(c)) == name.map_values(
            |c: char| ascii_lower(c),
        ),
        color_named(name.map_values(|c: char| ascii_lower(c)).map_values(|c: char| ascii_lower(c)))
            == color_named(name.map_values(|c: char| ascii_lower(c))),
{
    let lower = name.map_values(|c: char| ascii_lower(c));
    assert forall|i: int| 0 <= i < lower.len() implies #[trigger] ascii_lower(lower[i]) == lower[i] by {
        let c = name[i];
        if 'A' <= c <= 'Z' {
            assert(((c as u32) + 32) as char == lower[i]);
        }
    }
    assert(lower.map_values(|c: char| ascii_lower(c)) =~= lower);
}

} // verus!
