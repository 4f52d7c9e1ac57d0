//! The colour-preview pipeline: hexadecimal colour values read into RGB
//! channel triples, and the terminal swatch block that previews a palette
//! with direct-colour escape sequences.

use vstd::prelude::*;

use crate::model::{hex_digit_val, is_hex_digit_char, spec_channel, ColorSet, ColorSetView, Colors,
    ColorsView};

verus! {

/// The value with every leading `#` removed.
pub open spec fn strip_hashes(s: Seq<char>) -> Seq<char>
    decreases s.len(),
{
    if s.len() > 0 && s[0] == '#' {
        strip_hashes(s.drop_first())
    } else {
        s
    }
}

/// The channel triple a colour value denotes: its six hexadecimal digits
/// read pairwise, an invalid digit making its channel 0. A value without
/// six digits after the hashes denotes black.
pub open spec fn spec_rgb_triple(s: Seq<char>) -> (u8, u8, u8) {
    let t = strip_hashes(s);
    if t.len() >= 6 {
        (spec_channel(t[0], t[1]), spec_channel(t[2], t[3]), spec_channel(t[4], t[5]))
    } else {
        (0, 0, 0)
    }
}

/// The value of one hexadecimal digit character, if it is one.
fn hex_digit(c: char) -> (r: Option<u8>)
    ensures
        r is Some <==> is_hex_digit_char(c),
        r is Some ==> r->0 == hex_digit_val(c) && r->0 <= 15,
{
    if c >= '0' && c <= '9' {
        Some(((c as u32) - ('0' as u32)) as u8)
    } else if c >= 'a' && c <= 'f' {
        Some(((c as u32) - ('a' as u32) + 10) as u8)
    } else if c >= 'A' && c <= 'F' {
        Some(((c as u32) - ('A' as u32) + 10) as u8)
    } else {
        None
    }
}

/// One channel from two digit characters; 0 if either is invalid.
fn channel_val(hi: char, lo: char) -> (r: u8)
    ensures
        r == spec_channel(hi, lo),
{
    match (hex_digit(hi), hex_digit(lo)) {
        (Some(h), Some(l)) => h * 16 + l,
        _ => 0,
    }
}

/// Reads a `#RRGGBB` colour value into its integer channel triple. Digits
/// that are not hexadecimal make their channel 0 rather than an error, and
/// a value too short to hold six digits reads as black.
pub fn hex_to_rgb_tuple(hex: &str) -> (rgb: (u8, u8, u8))
    ensures
        rgb == spec_rgb_triple(hex@),
{
    let n = hex.unicode_len();
    let mut i: usize = 0;
    proof {
        assert(hex@.skip(0) =~= hex@);
    }
    while i < n && hex.get_char(i) == '#'
        invariant
            i <= n,
            n == hex@.len(),
            strip_hashes(hex@) == strip_hashes(hex@.skip(i as int)),
        decreases n - i,
    {
        proof {
            assert(hex@.skip(i as int)[0] == hex@[i as int]);
            assert(hex@.skip(i as int).drop_first() =~= hex@.skip(i as int + 1));
        }
        i += 1;
    }
    let ghost t = strip_hashes(hex@);
    proof {
        if i < n {
            assert(hex@.skip(i as int)[0] == hex@[i as int]);
        }
        assert(t == hex@.skip(i as int));
        assert(forall|j: int| 0 <= j < t.len() ==> t[j] == hex@[i + j]);
    }
    if n - i < 6 {
        return (0, 0, 0);
    }
    let r = channel_val(hex.get_char(i), hex.get_char(i + 1));
    let g = channel_val(hex.get_char(i + 2), hex.get_char(i + 3));
    let b = channel_val(hex.get_char(i + 4), hex.get_char(i + 5));
    (r, g, b)
}

/// One decimal digit as a character.
pub open spec fn digit_char(d: u8) -> char {
    if d == 0 {
        '0'
    } else if d == 1 {
        '1'
    } else if d == 2 {
        '2'
    } else if d == 3 {
        '3'
    } else if d == 4 {
        '4'
    } else if d == 5 {
        '5'
    } else if d == 6 {
        '6'
    } else if d == 7 {
        '7'
    } else if d == 8 {
        '8'
    } else {
        '9'
    }
}

/// The decimal notation of a byte, without leading zeros.
pub open spec fn spec_u8_dec(n: u8) -> Seq<char> {
    if n >= 100 {
        seq![
            digit_char((n / 100) as u8),
            digit_char(((n / 10) % 10) as u8),
            digit_char((n % 10) as u8),
        ]
    } else if n >= 10 {
        seq![digit_char((n / 10) as u8), digit_char((n % 10) as u8)]
    } else {
        seq![digit_char(n)]
    }
}

/// One decimal digit as a string.
fn digit_str(d: u8) -> (r: &'static str)
    requires
        d < 10,
    ensures
        r@ == seq![digit_char(d)],
{
    proof {
        reveal_strlit("0");
        reveal_strlit("1");
        reveal_strlit("2");
        reveal_strlit("3");
        reveal_strlit("4");
        reveal_strlit("5");
        reveal_strlit("6");
        reveal_strlit("7");
        reveal_strlit("8");
        reveal_strlit("9");
    }
    let r = if d == 0 {
        "0"
    } else if d == 1 {
        "1"
    } else if d == 2 {
        "2"
    } else if d == 3 {
        "3"
    } else if d == 4 {
        "4"
    } else if d == 5 {
        "5"
    } else if d == 6 {
        "6"
    } else if d == 7 {
        "7"
    } else if d == 8 {
        "8"
    } else {
        "9"
    };
    proof {
        assert(r@ =~= seq![digit_char(d)]);
    }
    r
}

/// Writes a byte in decimal.
fn u8_dec(n: u8) -> (r: String)
    ensures
        r@ == spec_u8_dec(n),
{
    let mut s = String::new();
    if n >= 100 {
        s.append(digit_str(n / 100));
        s.append(digit_str((n / 10) % 10));
        s.append(digit_str(n % 10));
    } else if n >= 10 {
        s.append(digit_str(n / 10));
        s.append(digit_str(n % 10));
    } else {
        s.append(digit_str(n));
    }
    proof {
        assert(s@ =~= spec_u8_dec(n));
    }
    s
}

/// One fixed-width swatch pane: the escape sequence that sets the colour
/// as a direct-colour background, then eight spaces.
pub open spec fn spec_pane(s: Seq<char>) -> Seq<char> {
    let t = spec_rgb_triple(s);
    "\u{1b}[48;2;"@ + spec_u8_dec(t.0) + ";"@ + spec_u8_dec(t.1) + ";"@ + spec_u8_dec(t.2)
        + "m        "@
}

/// One swatch row: the eight panes of an eight-colour row, then the reset
/// sequence.
pub open spec fn spec_row_line(cs: ColorSetView) -> Seq<char> {
    spec_pane(cs.black) + spec_pane(cs.red) + spec_pane(cs.green) + spec_pane(cs.yellow)
        + spec_pane(cs.blue) + spec_pane(cs.magenta) + spec_pane(cs.cyan) + spec_pane(cs.white)
        + "\u{1b}[0m"@
}

/// The six lines of a palette preview: the normal row three lines high,
/// then the bright row three lines high.
pub open spec fn spec_preview_lines(v: ColorsView) -> Seq<Seq<char>> {
    seq![
        spec_row_line(v.normal),
        spec_row_line(v.normal),
        spec_row_line(v.normal),
        spec_row_line(v.bright),
        spec_row_line(v.bright),
        spec_row_line(v.bright),
    ]
}

/// Builds one swatch pane.
fn pane_string(s: &str) -> (r: String)
    ensures
        r@ == spec_pane(s@),
{
    let (rr, gg, bb) = hex_to_rgb_tuple(s);
    let mut out = "\u{1b}[48;2;".to_owned();
    out.append(u8_dec(rr).as_str());
    out.append(";");
    out.append(u8_dec(gg).as_str());
    out.append(";");
    out.append(u8_dec(bb).as_str());
    out.append("m        ");
    out
}

/// Builds one swatch row.
fn row_string(cs: &ColorSet) -> (r: String)
    ensures
        r@ == spec_row_line(cs@),
{
    let mut out = pane_string(cs.black.as_str());
    out.append(pane_string(cs.red.as_str()).as_str());
    out.append(pane_string(cs.green.as_str()).as_str());
    out.append(pane_string(cs.yellow.as_str()).as_str());
    out.append(pane_string(cs.blue.as_str()).as_str());
    out.append(pane_string(cs.magenta.as_str()).as_str());
    out.append(pane_string(cs.cyan.as_str()).as_str());
    out.append(pane_string(cs.white.as_str()).as_str());
    out.append("\u{1b}[0m");
    out
}

/// The lines of the terminal preview of a palette: two 8-column swatch
/// blocks, normal colours above bright ones, each three lines high.
pub fn preview_lines(c: &Colors) -> (lines: Vec<String>)
    ensures
        lines@.map_values(|l: String| l@) == spec_preview_lines(c@),
{
    let mut lines: Vec<String> = Vec::new();
    lines.push(row_string(&c.normal));
    lines.push(row_string(&c.normal));
    lines.push(row_string(&c.normal));
    lines.push(row_string(&c.bright));
    lines.push(row_string(&c.bright));
    lines.push(row_string(&c.bright));
    proof {
        assert(lines@.map_values(|l: String| l@) =~= spec_preview_lines(c@));
    }
    lines
}

} // verus!

verus! {

} // verus!
