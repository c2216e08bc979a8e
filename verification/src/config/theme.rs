//! Semantic colors of the interface.
use vstd::prelude::*;

use crate::text::{push_char, push_str};

verus! {

/// A portable named terminal color or an exact RGB color.
#[derive(Debug, Clone, Copy, PartialEq, Eq, Structural)]
pub enum ThemeColor {
    Black,
    Red,
    Green,
    Yellow,
    Blue,
    Magenta,
    Cyan,
    Gray,
    DarkGray,
    LightRed,
    LightGreen,
    LightYellow,
    LightBlue,
    LightMagenta,
    LightCyan,
    White,
    Rgb(u8, u8, u8),
}

/// The named presets in cycling order.
pub open spec fn preset(i: int) -> ThemeColor {
    if i == 0 { ThemeColor::Black } else if i == 1 { ThemeColor::Red } else if i == 2 { ThemeColor::Green }
    else if i == 3 { ThemeColor::Yellow } else if i == 4 { ThemeColor::Blue } else if i == 5 { ThemeColor::Magenta }
    else if i == 6 { ThemeColor::Cyan } else if i == 7 { ThemeColor::Gray } else if i == 8 { ThemeColor::DarkGray }
    else if i == 9 { ThemeColor::LightRed } else if i == 10 { ThemeColor::LightGreen } else if i == 11 { ThemeColor::LightYellow }
    else if i == 12 { ThemeColor::LightBlue } else if i == 13 { ThemeColor::LightMagenta } else if i == 14 { ThemeColor::LightCyan }
    else { ThemeColor::White }
}

/// The number of named presets.
pub const PRESET_COUNT: usize = 16;

/// The position of a named preset in the cycle, or `None` for RGB colors.
pub open spec fn preset_index(c: ThemeColor) -> Option<int> {
    match c {
        ThemeColor::Black => Some(0), ThemeColor::Red => Some(1), ThemeColor::Green => Some(2),
        ThemeColor::Yellow => Some(3), ThemeColor::Blue => Some(4), ThemeColor::Magenta => Some(5),
        ThemeColor::Cyan => Some(6), ThemeColor::Gray => Some(7), ThemeColor::DarkGray => Some(8),
        ThemeColor::LightRed => Some(9), ThemeColor::LightGreen => Some(10), ThemeColor::LightYellow => Some(11),
        ThemeColor::LightBlue => Some(12), ThemeColor::LightMagenta => Some(13), ThemeColor::LightCyan => Some(14),
        ThemeColor::White => Some(15), ThemeColor::Rgb(..) => None,
    }
}

/// The color one step forward or backward in the preset ring; RGB colors enter the ring at its ends.
pub open spec fn cycled(c: ThemeColor, forward: bool) -> ThemeColor {
    match preset_index(c) {
        Some(i) => if forward { preset((i + 1) % 16) } else { preset((i + 15) % 16) },
        None => if forward { preset(0) } else { preset(15) },
    }
}

/// Cycling a preset color one step forward and one step back gives back the color, and an
/// RGB color cycled forward enters the preset ring at its start.
pub proof fn lemma_cycle_forward_then_back(c: ThemeColor)
    ensures
        preset_index(c) is Some ==> cycled(cycled(c, true), false) == c,
        preset_index(c) is Some ==> cycled(cycled(c, false), true) == c,
        preset_index(c) is None ==> cycled(c, true) == ThemeColor::Black,
{
    if let Some(i) = preset_index(c) {
        assert(preset_index(preset((i + 1) % 16)) == Some((i + 1) % 16));
        assert(preset_index(preset((i + 15) % 16)) == Some((i + 15) % 16));
        assert(preset(i) == c);
    }
}

/// The stored name of a named preset.
pub open spec fn color_name(c: ThemeColor) -> Option<Seq<char>> {
    match c {
        ThemeColor::Black => Some("black"@), ThemeColor::Red => Some("red"@), ThemeColor::Green => Some("green"@),
        ThemeColor::Yellow => Some("yellow"@), ThemeColor::Blue => Some("blue"@), ThemeColor::Magenta => Some("magenta"@),
        ThemeColor::Cyan => Some("cyan"@), ThemeColor::Gray => Some("gray"@), ThemeColor::DarkGray => Some("dark_gray"@),
        ThemeColor::LightRed => Some("light_red"@), ThemeColor::LightGreen => Some("light_green"@),
        ThemeColor::LightYellow => Some("light_yellow"@), ThemeColor::LightBlue => Some("light_blue"@),
        ThemeColor::LightMagenta => Some("light_magenta"@), ThemeColor::LightCyan => Some("light_cyan"@),
        ThemeColor::White => Some("white"@), ThemeColor::Rgb(..) => None,
    }
}

/// The lowercase hexadecimal digit of a value below sixteen.
pub open spec fn hex_char(v: nat) -> char {
    if v < 10 { crate::text::digit_char(v) } else if v == 10 { 'a' } else if v == 11 { 'b' } else if v == 12 { 'c' }
    else if v == 13 { 'd' } else if v == 14 { 'e' } else { 'f' }
}

/// Two lowercase hexadecimal digits of a byte.
pub open spec fn hex_byte(b: u8) -> Seq<char> {
    seq![hex_char(b as nat / 16), hex_char(b as nat % 16)]
}

/// The stored text of a color: its preset name or `#rrggbb`.
pub open spec fn color_text(c: ThemeColor) -> Seq<char> {
    match c {
        ThemeColor::Rgb(r, g, b) => seq!['#'] + hex_byte(r) + hex_byte(g) + hex_byte(b),
        _ => color_name(c).unwrap(),
    }
}

/// The value of a hexadecimal digit of either case, if `c` is one.
pub open spec fn hex_value(c: char) -> Option<nat> {
    if '0' <= c && c <= '9' { Some((c as nat - '0' as nat) as nat) }
    else if 'a' <= c && c <= 'f' { Some((c as nat - 'a' as nat + 10) as nat) }
    else if 'A' <= c && c <= 'F' { Some((c as nat - 'A' as nat + 10) as nat) }
    else { None }
}

/// The number written by hexadecimal digits, if every character is one.
pub open spec fn hex_digits_value(s: Seq<char>) -> Option<nat>
    decreases s.len(),
{
    if s.len() == 0 {
        Some(0)
    } else {
        match (hex_digits_value(s.drop_last()), hex_value(s.last())) {
            (Some(v), Some(d)) => Some(v * 16 + d),
            _ => None,
        }
    }
}

/// The value of the six characters after `#`, read as `u32::from_str_radix` reads base 16
/// (an optional leading `+`).
pub open spec fn hex_code_value(hex: Seq<char>) -> Option<nat> {
    if hex.len() != 6 {
        None
    } else if hex[0] == '+' {
        hex_digits_value(hex.drop_first())
    } else {
        hex_digits_value(hex)
    }
}

/// The color a stored text denotes, if any.
pub open spec fn parse_color_text(value: Seq<char>) -> Option<ThemeColor> {
    if named_preset_from(value, 0) is Some {
        named_preset_from(value, 0)
    } else if value.len() > 0 && value[0] == '#' && hex_code_value(value.drop_first()) is Some {
        let v = hex_code_value(value.drop_first()).unwrap();
        Some(ThemeColor::Rgb((v / 65536) as u8, ((v / 256) % 256) as u8, (v % 256) as u8))
    } else {
        None
    }
}

/// The first preset at or after position `i` whose name is `value`.
pub open spec fn named_preset_from(value: Seq<char>, i: int) -> Option<ThemeColor>
    decreases 16 - i,
{
    if i >= 16 || i < 0 {
        None
    } else if color_name(preset(i)) == Some(value) {
        Some(preset(i))
    } else {
        named_preset_from(value, i + 1)
    }
}

/// A hexadecimal digit written by `hex_char` reads back as its value.
proof fn lemma_hex_char_value(v: nat)
    requires
        v < 16,
    ensures
        hex_value(hex_char(v)) == Some(v),
        hex_char(v) != '+',
{
    if v < 10 {
        crate::text::lemma_digit_char(v);
    }
}

/// The stored names of the presets, spelled out.
proof fn lemma_color_names()
    ensures
        color_name(ThemeColor::Black) == Some(seq!['b', 'l', 'a', 'c', 'k']),
        color_name(ThemeColor::Red) == Some(seq!['r', 'e', 'd']),
        color_name(ThemeColor::Green) == Some(seq!['g', 'r', 'e', 'e', 'n']),
        color_name(ThemeColor::Yellow) == Some(seq!['y', 'e', 'l', 'l', 'o', 'w']),
        color_name(ThemeColor::Blue) == Some(seq!['b', 'l', 'u', 'e']),
        color_name(ThemeColor::Magenta) == Some(seq!['m', 'a', 'g', 'e', 'n', 't', 'a']),
        color_name(ThemeColor::Cyan) == Some(seq!['c', 'y', 'a', 'n']),
        color_name(ThemeColor::Gray) == Some(seq!['g', 'r', 'a', 'y']),
        color_name(ThemeColor::DarkGray) == Some(seq!['d', 'a', 'r', 'k', '_', 'g', 'r', 'a', 'y']),
        color_name(ThemeColor::LightRed) == Some(seq!['l', 'i', 'g', 'h', 't', '_', 'r', 'e', 'd']),
        color_name(ThemeColor::LightGreen) == Some(seq!['l', 'i', 'g', 'h', 't', '_', 'g', 'r', 'e', 'e', 'n']),
        color_name(ThemeColor::LightYellow) == Some(seq!['l', 'i', 'g', 'h', 't', '_', 'y', 'e', 'l', 'l', 'o', 'w']),
        color_name(ThemeColor::LightBlue) == Some(seq!['l', 'i', 'g', 'h', 't', '_', 'b', 'l', 'u', 'e']),
        color_name(ThemeColor::LightMagenta) == Some(
            seq!['l', 'i', 'g', 'h', 't', '_', 'm', 'a', 'g', 'e', 'n', 't', 'a'],
        ),
        color_name(ThemeColor::LightCyan) == Some(seq!['l', 'i', 'g', 'h', 't', '_', 'c', 'y', 'a', 'n']),
        color_name(ThemeColor::White) == Some(seq!['w', 'h', 'i', 't', 'e']),
{
    reveal_strlit("black");
    reveal_strlit("red");
    reveal_strlit("green");
    reveal_strlit("yellow");
    reveal_strlit("blue");
    reveal_strlit("magenta");
    reveal_strlit("cyan");
    reveal_strlit("gray");
    reveal_strlit("dark_gray");
    reveal_strlit("light_red");
    reveal_strlit("light_green");
    reveal_strlit("light_yellow");
    reveal_strlit("light_blue");
    reveal_strlit("light_magenta");
    reveal_strlit("light_cyan");
    reveal_strlit("white");
}

/// No preset is named by a text that starts with `#`.
proof fn lemma_no_preset_named(value: Seq<char>, i: int)
    requires
        0 <= i <= 16,
        value.len() > 0,
        value[0] == '#',
    ensures
        named_preset_from(value, i) is None,
    decreases 16 - i,
{
    lemma_color_names();
    if i < 16 {
        let name = color_name(preset(i)).unwrap();
        assert(name[0] != '#');
        lemma_no_preset_named(value, i + 1);
    }
}

/// Looking a preset's own name up from a position at or before it finds the preset.
proof fn lemma_preset_found(k: int, i: int)
    requires
        0 <= i <= k < 16,
    ensures
        named_preset_from(color_name(preset(k)).unwrap(), i) == Some(preset(k)),
    decreases k - i,
{
    lemma_color_names();
    if i < k {
        let wanted = color_name(preset(k)).unwrap();
        let here = color_name(preset(i)).unwrap();
        assert(here != wanted) by {
            if here == wanted {
                assert(here.len() == wanted.len());
                assert(here[0] == wanted[0]);
                assert(here[here.len() - 1] == wanted[wanted.len() - 1]);
                assert(here[1] == wanted[1]);
                assert(here[2] == wanted[2]);
                assert(here[3] == wanted[3]);
                if here.len() > 6 {
                    assert(here[6] == wanted[6]);
                    assert(here[7] == wanted[7]);
                }
            }
        }
        lemma_preset_found(k, i + 1);
    }
}

/// The six hexadecimal digits of three bytes read back as the number the bytes make up.
proof fn lemma_hex_digits_read_back(r: u8, g: u8, b: u8)
    ensures
        hex_digits_value(hex_byte(r) + hex_byte(g) + hex_byte(b)) == Some(
            (r as nat * 256 + g as nat) * 256 + b as nat,
        ),
{
    let digits = hex_byte(r) + hex_byte(g) + hex_byte(b);
    lemma_hex_char_value(r as nat / 16);
    lemma_hex_char_value(r as nat % 16);
    lemma_hex_char_value(g as nat / 16);
    lemma_hex_char_value(g as nat % 16);
    lemma_hex_char_value(b as nat / 16);
    lemma_hex_char_value(b as nat % 16);
    assert(digits.take(0) =~= Seq::<char>::empty());
    assert(digits.take(1).drop_last() =~= digits.take(0));
    assert(digits.take(2).drop_last() =~= digits.take(1));
    assert(digits.take(3).drop_last() =~= digits.take(2));
    assert(digits.take(4).drop_last() =~= digits.take(3));
    assert(digits.take(5).drop_last() =~= digits.take(4));
    assert(digits.drop_last() =~= digits.take(5));
    assert(hex_digits_value(digits.take(0)) == Some(0nat));
    assert(hex_digits_value(digits.take(1)) == Some(r as nat / 16));
    assert(hex_digits_value(digits.take(2)) == Some(r as nat));
    assert(hex_digits_value(digits.take(3)) == Some(r as nat * 16 + g as nat / 16));
    assert(hex_digits_value(digits.take(4)) == Some(r as nat * 256 + g as nat));
    assert(hex_digits_value(digits.take(5)) == Some((r as nat * 256 + g as nat) * 16 + b as nat / 16));
}

/// An RGB color written as `#rrggbb` reads back as the same color.
proof fn lemma_rgb_text_round_trip(r: u8, g: u8, b: u8)
    ensures
        parse_color_text(color_text(ThemeColor::Rgb(r, g, b))) == Some(ThemeColor::Rgb(r, g, b)),
{
    let t = color_text(ThemeColor::Rgb(r, g, b));
    lemma_no_preset_named(t, 0);
    assert(t.drop_first() =~= hex_byte(r) + hex_byte(g) + hex_byte(b));
    lemma_hex_char_value(r as nat / 16);
    lemma_hex_digits_read_back(r, g, b);
    let v = (r as nat * 256 + g as nat) * 256 + b as nat;
    assert(v / 65536 == r as nat && (v / 256) % 256 == g as nat && v % 256 == b as nat) by (nonlinear_arith)
        requires
            v == (r as nat * 256 + g as nat) * 256 + b as nat,
            r < 256,
            g < 256,
            b < 256,
    ;
}

/// Every color written out as stored text reads back as the same color.
pub proof fn lemma_color_text_round_trip(c: ThemeColor)
    ensures
        parse_color_text(color_text(c)) == Some(c),
{
    match c {
        ThemeColor::Rgb(r, g, b) => lemma_rgb_text_round_trip(r, g, b),
        _ => {
            let k = preset_index(c).unwrap();
            assert(preset(k) == c);
            lemma_preset_found(k, 0);
        },
    }
}

/// The error text of a rejected color, holding the rejected value in debug quoting.
pub open spec fn color_error_text(value: Seq<char>) -> Seq<char> {
    "color must be a supported preset name or #RRGGBB; found "@ + crate::text::debug_quoted(value)
}

fn preset_at(i: usize) -> (c: ThemeColor)
    requires
        i < 16,
    ensures
        c == preset(i as int),
{
    if i == 0 { ThemeColor::Black } else if i == 1 { ThemeColor::Red } else if i == 2 { ThemeColor::Green }
    else if i == 3 { ThemeColor::Yellow } else if i == 4 { ThemeColor::Blue } else if i == 5 { ThemeColor::Magenta }
    else if i == 6 { ThemeColor::Cyan } else if i == 7 { ThemeColor::Gray } else if i == 8 { ThemeColor::DarkGray }
    else if i == 9 { ThemeColor::LightRed } else if i == 10 { ThemeColor::LightGreen } else if i == 11 { ThemeColor::LightYellow }
    else if i == 12 { ThemeColor::LightBlue } else if i == 13 { ThemeColor::LightMagenta } else if i == 14 { ThemeColor::LightCyan }
    else { ThemeColor::White }
}

fn hex_digit_char(v: u8) -> (c: char)
    requires
        v < 16,
    ensures
        c == hex_char(v as nat),
{
    if v == 0 { '0' } else if v == 1 { '1' } else if v == 2 { '2' } else if v == 3 { '3' }
    else if v == 4 { '4' } else if v == 5 { '5' } else if v == 6 { '6' } else if v == 7 { '7' }
    else if v == 8 { '8' } else if v == 9 { '9' } else if v == 10 { 'a' } else if v == 11 { 'b' }
    else if v == 12 { 'c' } else if v == 13 { 'd' } else if v == 14 { 'e' } else { 'f' }
}

fn push_hex_byte(s: &mut String, b: u8)
    ensures
        final(s)@ == old(s)@ + hex_byte(b),
{
    push_char(s, hex_digit_char(b / 16));
    push_char(s, hex_digit_char(b % 16));
    assert(final(s)@ =~= old(s)@ + hex_byte(b));
}

fn hex_char_value(c: char) -> (v: Option<u32>)
    ensures
        v matches Some(x) ==> hex_value(c) == Some(x as nat),
        v is None <==> hex_value(c) is None,
{
    if '0' <= c && c <= '9' {
        Some(c as u32 - '0' as u32)
    } else if 'a' <= c && c <= 'f' {
        Some(c as u32 - 'a' as u32 + 10)
    } else if 'A' <= c && c <= 'F' {
        Some(c as u32 - 'A' as u32 + 10)
    } else {
        None
    }
}

/// Sixteen to the power `n`.
spec fn pow16(n: nat) -> nat
    decreases n,
{
    if n == 0 { 1 } else { 16 * pow16((n - 1) as nat) }
}

proof fn lemma_pow16_values()
    ensures
        pow16(5) == 1048576,
        pow16(6) == 16777216,
{
    assert(pow16(0) == 1);
    assert(pow16(1) == 16);
    assert(pow16(2) == 256);
    assert(pow16(3) == 4096);
    assert(pow16(4) == 65536);
    assert(pow16(5) == 1048576);
    assert(pow16(6) == 16777216);
}

proof fn lemma_pow16_increases(a: nat, b: nat)
    requires
        a <= b,
    ensures
        pow16(a) <= pow16(b),
    decreases b,
{
    if a < b {
        lemma_pow16_increases(a, (b - 1) as nat);
    }
}

proof fn lemma_hex_bound(s: Seq<char>)
    requires
        hex_digits_value(s) is Some,
    ensures
        hex_digits_value(s).unwrap() < pow16(s.len()),
    decreases s.len(),
{
    if s.len() > 0 {
        lemma_hex_bound(s.drop_last());
        let v = hex_digits_value(s.drop_last()).unwrap();
        let d = hex_value(s.last()).unwrap();
        let p = pow16((s.len() - 1) as nat);
        assert(v * 16 + d < p * 16) by (nonlinear_arith)
            requires v < p, d < 16;
    }
}

/// Reads hexadecimal digits `from..to` of `s`.
fn read_hex(s: &str, from: usize, to: usize) -> (r: Option<u32>)
    requires
        from <= to <= s@.len(),
        to - from <= 6,
    ensures
        r matches Some(v) ==> hex_digits_value(s@.subrange(from as int, to as int)) == Some(v as nat),
        r is None <==> hex_digits_value(s@.subrange(from as int, to as int)) is None,
{
    let mut value: u32 = 0;
    let mut i = from;
    while i < to
        invariant
            from <= i <= to <= s@.len(),
            to - from <= 6,
            hex_digits_value(s@.subrange(from as int, i as int)) == Some(value as nat),
        decreases to - i,
    {
        let c = s.get_char(i);
        assert(s@.subrange(from as int, i + 1).drop_last() =~= s@.subrange(from as int, i as int));
        match hex_char_value(c) {
            Some(d) => {
                proof {
                    lemma_hex_bound(s@.subrange(from as int, i as int));
                    lemma_pow16_increases((i - from) as nat, 5);
                    lemma_pow16_values();
                }
                value = value * 16 + d;
            },
            None => {
                proof {
                    lemma_hex_none_extends(s@.subrange(from as int, i + 1), s@.subrange(from as int, to as int));
                }
                return None;
            },
        }
        i = i + 1;
    }
    Some(value)
}

proof fn lemma_hex_none_extends(prefix: Seq<char>, s: Seq<char>)
    requires
        prefix.len() <= s.len(),
        prefix =~= s.subrange(0, prefix.len() as int),
        hex_digits_value(prefix) is None,
    ensures
        hex_digits_value(s) is None,
    decreases s.len(),
{
    if s.len() > prefix.len() {
        assert(s.drop_last().subrange(0, prefix.len() as int) =~= prefix);
        lemma_hex_none_extends(prefix, s.drop_last());
    } else {
        assert(s =~= prefix);
    }
}

impl ThemeColor {
    /// One step forward or backward in the preset ring.
    pub fn cycle(self, forward: bool) -> (c: ThemeColor)
        ensures
            c == cycled(self, forward),
    {
        let index: Option<usize> = match self {
            ThemeColor::Black => Some(0), ThemeColor::Red => Some(1), ThemeColor::Green => Some(2),
            ThemeColor::Yellow => Some(3), ThemeColor::Blue => Some(4), ThemeColor::Magenta => Some(5),
            ThemeColor::Cyan => Some(6), ThemeColor::Gray => Some(7), ThemeColor::DarkGray => Some(8),
            ThemeColor::LightRed => Some(9), ThemeColor::LightGreen => Some(10), ThemeColor::LightYellow => Some(11),
            ThemeColor::LightBlue => Some(12), ThemeColor::LightMagenta => Some(13), ThemeColor::LightCyan => Some(14),
            ThemeColor::White => Some(15), ThemeColor::Rgb(..) => None,
        };
        match (index, forward) {
            (Some(i), true) => preset_at((i + 1) % PRESET_COUNT),
            (Some(i), false) => preset_at((i + PRESET_COUNT - 1) % PRESET_COUNT),
            (None, true) => preset_at(0),
            (None, false) => preset_at(PRESET_COUNT - 1),
        }
    }

    /// The stored name of a preset, or `None` for an RGB color.
    pub fn name(self) -> (n: Option<&'static str>)
        ensures
            n matches Some(s) ==> color_name(self) == Some(s@),
            n is None <==> color_name(self) is None,
    {
        match self {
            ThemeColor::Black => Some("black"), ThemeColor::Red => Some("red"), ThemeColor::Green => Some("green"),
            ThemeColor::Yellow => Some("yellow"), ThemeColor::Blue => Some("blue"), ThemeColor::Magenta => Some("magenta"),
            ThemeColor::Cyan => Some("cyan"), ThemeColor::Gray => Some("gray"), ThemeColor::DarkGray => Some("dark_gray"),
            ThemeColor::LightRed => Some("light_red"), ThemeColor::LightGreen => Some("light_green"),
            ThemeColor::LightYellow => Some("light_yellow"), ThemeColor::LightBlue => Some("light_blue"),
            ThemeColor::LightMagenta => Some("light_magenta"), ThemeColor::LightCyan => Some("light_cyan"),
            ThemeColor::White => Some("white"), ThemeColor::Rgb(..) => None,
        }
    }

    /// The stored text: the preset name or `#rrggbb` in lowercase.
    pub fn to_text(self) -> (s: String)
        ensures
            s@ == color_text(self),
    {
        let mut s = String::new();
        match self {
            ThemeColor::Rgb(r, g, b) => {
                push_char(&mut s, '#');
                push_hex_byte(&mut s, r);
                push_hex_byte(&mut s, g);
                push_hex_byte(&mut s, b);
                assert(s@ =~= color_text(self));
            },
            _ => {
                let name = self.name();
                match name {
                    Some(n) => push_str(&mut s, n),
                    None => {},
                }
                assert(s@ =~= color_text(self));
            },
        }
        s
    }

    /// Reads a preset name or a `#RRGGBB` code of either case.
    pub fn parse(value: &str) -> (r: Result<ThemeColor, String>)
        ensures
            r matches Ok(c) ==> parse_color_text(value@) == Some(c),
            r matches Err(e) ==> parse_color_text(value@) is None && e@ == color_error_text(value@),
            r is Ok <==> parse_color_text(value@) is Some,
    {
        let mut i: usize = 0;
        while i < PRESET_COUNT
            invariant
                i <= 16,
                named_preset_from(value@, 0) == named_preset_from(value@, i as int),
            decreases 16 - i,
        {
            let candidate = preset_at(i);
            let name = candidate.name();
            match name {
                Some(n) => {
                    if crate::text::same_text(n, value) {
                        return Ok(candidate);
                    }
                },
                None => {},
            }
            i = i + 1;
        }
        let n = value.unicode_len();
        if n == 7 && value.get_char(0) == '#' {
            assert(value@.drop_first() =~= value@.subrange(1, 7));
            let digits = if value.get_char(1) == '+' {
                assert(value@.drop_first().drop_first() =~= value@.subrange(2, 7));
                read_hex(value, 2, 7)
            } else {
                read_hex(value, 1, 7)
            };
            match digits {
                Some(v) => {
                    proof {
                        lemma_hex_bound(if value@[1] == '+' { value@.subrange(2, 7) } else { value@.subrange(1, 7) });
                        lemma_pow16_values();
                    }
                    let red = (v / 65536) as u8;
                    let green = ((v / 256) % 256) as u8;
                    let blue = (v % 256) as u8;
                    return Ok(ThemeColor::Rgb(red, green, blue));
                },
                None => {},
            }
        }
        let mut e = String::new();
        push_str(&mut e, "color must be a supported preset name or #RRGGBB; found ");
        let quoted = crate::text::debug_quote(value);
        push_str(&mut e, quoted.as_str());
        Err(e)
    }
}

/// A semantic presentation role that carries a color.
#[derive(Debug, Clone, Copy, PartialEq, Eq, Structural)]
pub enum ThemeRole {
    FocusedBorder,
    UnfocusedBorder,
    TodoHighlight,
    DoneHighlight,
    Focus,
    ShortBreak,
    LongBreak,
}

/// Durable colors assigned to semantic presentation roles.
#[derive(Debug, Clone, Copy, PartialEq, Eq, Structural)]
pub struct ThemeConfig {
    focused_border: ThemeColor,
    unfocused_border: ThemeColor,
    todo_highlight: ThemeColor,
    done_highlight: ThemeColor,
    focus: ThemeColor,
    short_break: ThemeColor,
    long_break: ThemeColor,
}

impl ThemeConfig {
    /// The color assigned to `role`.
    pub closed spec fn role_color(self, role: ThemeRole) -> ThemeColor {
        match role {
            ThemeRole::FocusedBorder => self.focused_border,
            ThemeRole::UnfocusedBorder => self.unfocused_border,
            ThemeRole::TodoHighlight => self.todo_highlight,
            ThemeRole::DoneHighlight => self.done_highlight,
            ThemeRole::Focus => self.focus,
            ThemeRole::ShortBreak => self.short_break,
            ThemeRole::LongBreak => self.long_break,
        }
    }

    /// A theme with the given border and highlight colors and the default session colors.
    pub fn new(
        focused_border: ThemeColor,
        unfocused_border: ThemeColor,
        todo_highlight: ThemeColor,
        done_highlight: ThemeColor,
    ) -> (t: ThemeConfig)
        ensures
            t.role_color(ThemeRole::FocusedBorder) == focused_border,
            t.role_color(ThemeRole::UnfocusedBorder) == unfocused_border,
            t.role_color(ThemeRole::TodoHighlight) == todo_highlight,
            t.role_color(ThemeRole::DoneHighlight) == done_highlight,
            t.role_color(ThemeRole::Focus) == ThemeColor::LightRed,
            t.role_color(ThemeRole::ShortBreak) == ThemeColor::Cyan,
            t.role_color(ThemeRole::LongBreak) == ThemeColor::Green,
    {
        ThemeConfig {
            focused_border,
            unfocused_border,
            todo_highlight,
            done_highlight,
            focus: ThemeColor::LightRed,
            short_break: ThemeColor::Cyan,
            long_break: ThemeColor::Green,
        }
    }

    /// Themes that agree on every role are equal.
    pub proof fn lemma_ext(a: ThemeConfig, b: ThemeConfig)
        requires
            forall|r: ThemeRole| a.role_color(r) == b.role_color(r),
        ensures
            a == b,
    {
        assert(a.role_color(ThemeRole::FocusedBorder) == b.role_color(ThemeRole::FocusedBorder));
        assert(a.role_color(ThemeRole::UnfocusedBorder) == b.role_color(ThemeRole::UnfocusedBorder));
        assert(a.role_color(ThemeRole::TodoHighlight) == b.role_color(ThemeRole::TodoHighlight));
        assert(a.role_color(ThemeRole::DoneHighlight) == b.role_color(ThemeRole::DoneHighlight));
        assert(a.role_color(ThemeRole::Focus) == b.role_color(ThemeRole::Focus));
        assert(a.role_color(ThemeRole::ShortBreak) == b.role_color(ThemeRole::ShortBreak));
        assert(a.role_color(ThemeRole::LongBreak) == b.role_color(ThemeRole::LongBreak));
    }

    /// The theme of a fresh configuration.
    pub open spec fn is_default(self) -> bool {
        &&& self.role_color(ThemeRole::FocusedBorder) == ThemeColor::LightRed
        &&& self.role_color(ThemeRole::UnfocusedBorder) == ThemeColor::DarkGray
        &&& self.role_color(ThemeRole::TodoHighlight) == ThemeColor::Red
        &&& self.role_color(ThemeRole::DoneHighlight) == ThemeColor::Green
        &&& self.role_color(ThemeRole::Focus) == ThemeColor::LightRed
        &&& self.role_color(ThemeRole::ShortBreak) == ThemeColor::Cyan
        &&& self.role_color(ThemeRole::LongBreak) == ThemeColor::Green
    }

    /// The default color of `role`.
    pub open spec fn default_theme_color(role: ThemeRole) -> ThemeColor {
        match role {
            ThemeRole::FocusedBorder => ThemeColor::LightRed,
            ThemeRole::UnfocusedBorder => ThemeColor::DarkGray,
            ThemeRole::TodoHighlight => ThemeColor::Red,
            ThemeRole::DoneHighlight => ThemeColor::Green,
            ThemeRole::Focus => ThemeColor::LightRed,
            ThemeRole::ShortBreak => ThemeColor::Cyan,
            ThemeRole::LongBreak => ThemeColor::Green,
        }
    }

    /// The default theme.
    pub fn default_theme() -> (t: ThemeConfig)
        ensures
            t.is_default(),
    {
        ThemeConfig::new(ThemeColor::LightRed, ThemeColor::DarkGray, ThemeColor::Red, ThemeColor::Green)
    }

    pub fn focused_border(&self) -> (c: ThemeColor)
        ensures
            c == self.role_color(ThemeRole::FocusedBorder),
    {
        self.focused_border
    }

    pub fn unfocused_border(&self) -> (c: ThemeColor)
        ensures
            c == self.role_color(ThemeRole::UnfocusedBorder),
    {
        self.unfocused_border
    }

    pub fn todo_highlight(&self) -> (c: ThemeColor)
        ensures
            c == self.role_color(ThemeRole::TodoHighlight),
    {
        self.todo_highlight
    }

    pub fn done_highlight(&self) -> (c: ThemeColor)
        ensures
            c == self.role_color(ThemeRole::DoneHighlight),
    {
        self.done_highlight
    }

    pub fn focus(&self) -> (c: ThemeColor)
        ensures
            c == self.role_color(ThemeRole::Focus),
    {
        self.focus
    }

    pub fn short_break(&self) -> (c: ThemeColor)
        ensures
            c == self.role_color(ThemeRole::ShortBreak),
    {
        self.short_break
    }

    pub fn long_break(&self) -> (c: ThemeColor)
        ensures
            c == self.role_color(ThemeRole::LongBreak),
    {
        self.long_break
    }

    /// This theme with `role` recolored.
    pub closed spec fn recolored(self, role: ThemeRole, color: ThemeColor) -> ThemeConfig {
        match role {
            ThemeRole::FocusedBorder => ThemeConfig { focused_border: color, ..self },
            ThemeRole::UnfocusedBorder => ThemeConfig { unfocused_border: color, ..self },
            ThemeRole::TodoHighlight => ThemeConfig { todo_highlight: color, ..self },
            ThemeRole::DoneHighlight => ThemeConfig { done_highlight: color, ..self },
            ThemeRole::Focus => ThemeConfig { focus: color, ..self },
            ThemeRole::ShortBreak => ThemeConfig { short_break: color, ..self },
            ThemeRole::LongBreak => ThemeConfig { long_break: color, ..self },
        }
    }

    /// Recoloring sets exactly the chosen role.
    pub proof fn lemma_recolored(self, role: ThemeRole, color: ThemeColor)
        ensures
            self.recolored(role, color).role_color(role) == color,
            forall|r: ThemeRole| r != role ==> self.recolored(role, color).role_color(r) == self.role_color(r),
    {
    }

    /// The theme with `role` recolored; every other role keeps its color.
    pub fn with_color(self, role: ThemeRole, color: ThemeColor) -> (t: ThemeConfig)
        ensures
            t == self.recolored(role, color),
            t.role_color(role) == color,
            forall|r: ThemeRole| r != role ==> t.role_color(r) == self.role_color(r),
    {
        let mut t = self;
        match role {
            ThemeRole::FocusedBorder => t.focused_border = color,
            ThemeRole::UnfocusedBorder => t.unfocused_border = color,
            ThemeRole::TodoHighlight => t.todo_highlight = color,
            ThemeRole::DoneHighlight => t.done_highlight = color,
            ThemeRole::Focus => t.focus = color,
            ThemeRole::ShortBreak => t.short_break = color,
            ThemeRole::LongBreak => t.long_break = color,
        }
        t
    }

    /// The color assigned to `role`.
    pub fn color(self, role: ThemeRole) -> (c: ThemeColor)
        ensures
            c == self.role_color(role),
    {
        match role {
            ThemeRole::FocusedBorder => self.focused_border,
            ThemeRole::UnfocusedBorder => self.unfocused_border,
            ThemeRole::TodoHighlight => self.todo_highlight,
            ThemeRole::DoneHighlight => self.done_highlight,
            ThemeRole::Focus => self.focus,
            ThemeRole::ShortBreak => self.short_break,
            ThemeRole::LongBreak => self.long_break,
        }
    }
}

impl Default for ThemeConfig {
    fn default() -> (t: ThemeConfig)
        ensures
            t.is_default(),
    {
        ThemeConfig::default_theme()
    }
}

/// `c` with an ASCII lowercase letter made uppercase.
pub open spec fn ascii_upper(c: char) -> char {
    if 'a' <= c && c <= 'z' { ((c as u32) - 32) as char } else { c }
}

/// `c` with an ASCII uppercase letter made lowercase.
pub open spec fn ascii_lower(c: char) -> char {
    if 'A' <= c && c <= 'Z' { ((c as u32) + 32) as char } else { c }
}

/// Hexadecimal digits read the same in either case, and a character is a hexadecimal digit of
/// value `v` exactly when its lowercase form is the digit that writes `v`.
pub proof fn lemma_hex_digits_ignore_case(c: char)
    ensures
        hex_value(ascii_upper(c)) == hex_value(c),
        hex_value(ascii_lower(c)) == hex_value(c),
        forall|v: nat| v < 16 ==> (hex_value(c) == Some(v) <==> #[trigger] hex_char(v) == ascii_lower(c)),
{
    assert forall|v: nat| v < 16 implies (hex_value(c) == Some(v) <==> #[trigger] hex_char(v) == ascii_lower(c)) by {
        lemma_hex_char_value(v);
        if v < 10 {
            crate::text::lemma_digit_char(v);
        }
    }
}

proof fn lemma_hex_digits_value_ignore_case(s: Seq<char>)
    ensures
        hex_digits_value(s.map_values(|c: char| ascii_upper(c))) == hex_digits_value(s),
    decreases s.len(),
{
    let u = s.map_values(|c: char| ascii_upper(c));
    if s.len() > 0 {
        assert(u.drop_last() =~= s.drop_last().map_values(|c: char| ascii_upper(c)));
        lemma_hex_digits_value_ignore_case(s.drop_last());
        lemma_hex_digits_ignore_case(s.last());
        assert(u.last() == ascii_upper(s.last()));
    }
}

/// A `#` color reads the same whatever the case of its hexadecimal digits: writing them in
/// uppercase gives the same color, so every color written out reads back from uppercase too.
pub proof fn lemma_hex_colors_ignore_case(hex: Seq<char>)
    ensures
        parse_color_text(seq!['#'] + hex.map_values(|c: char| ascii_upper(c))) == parse_color_text(seq!['#'] + hex),
        forall|r: u8, g: u8, b: u8| hex == #[trigger] color_text(ThemeColor::Rgb(r, g, b)).drop_first()
            ==> parse_color_text(seq!['#'] + hex.map_values(|c: char| ascii_upper(c))) == Some(ThemeColor::Rgb(r, g, b)),
{
    let u = hex.map_values(|c: char| ascii_upper(c));
    let t1 = seq!['#'] + u;
    let t2 = seq!['#'] + hex;
    lemma_no_preset_named(t1, 0);
    lemma_no_preset_named(t2, 0);
    assert(t1.drop_first() =~= u);
    assert(t2.drop_first() =~= hex);
    if hex.len() == 6 {
        if hex[0] == '+' {
            assert(u[0] == '+');
            assert(u.drop_first() =~= hex.drop_first().map_values(|c: char| ascii_upper(c)));
            lemma_hex_digits_value_ignore_case(hex.drop_first());
        } else {
            assert(u[0] == ascii_upper(hex[0]));
            assert(u[0] != '+');
            lemma_hex_digits_value_ignore_case(hex);
        }
    }
    assert forall|r: u8, g: u8, b: u8| hex == #[trigger] color_text(ThemeColor::Rgb(r, g, b)).drop_first()
        implies parse_color_text(t1) == Some(ThemeColor::Rgb(r, g, b)) by {
        lemma_rgb_text_round_trip(r, g, b);
        assert(color_text(ThemeColor::Rgb(r, g, b)) =~= t2);
    }
}

} // verus!
