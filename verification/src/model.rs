//! The data model: a theme's manifest and the 19-colour palette of one
//! variant, together with their mathematical views and well-formedness.

use vstd::prelude::*;

verus! {

/// One eight-slot row of ANSI colours, each a `#RRGGBB` string.
#[derive(Clone)]
pub struct ColorSet {
    pub black: String,
    pub red: String,
    pub green: String,
    pub yellow: String,
    pub blue: String,
    pub magenta: String,
    pub cyan: String,
    pub white: String,
}

/// The three colours outside the ANSI rows.
#[derive(Clone)]
pub struct SpecialColors {
    pub background: String,
    pub foreground: String,
    pub cursor: String,
}

/// A resolved palette: 8 normal + 8 bright + 3 special colours.
#[derive(Clone)]
pub struct Colors {
    pub normal: ColorSet,
    pub bright: ColorSet,
    pub special: SpecialColors,
}

/// The manifest of a theme package: identity, variant files, targets.
#[derive(Clone)]
pub struct Metadata {
    pub name: String,
    pub author: String,
    pub files: Vec<String>,
    pub targets: Vec<String>,
}

/// The top-level shape of a manifest file: one `theme` table.
#[derive(Clone)]
pub struct MetadataFile {
    pub theme: Metadata,
}

/// The top-level shape of a palette file: one `colors` table.
#[derive(Clone)]
pub struct ColorFile {
    pub colors: Colors,
}

/// Mathematical view of a `ColorSet`.
#[verifier::ext_equal]
pub struct ColorSetView {
    pub black: Seq<char>,
    pub red: Seq<char>,
    pub green: Seq<char>,
    pub yellow: Seq<char>,
    pub blue: Seq<char>,
    pub magenta: Seq<char>,
    pub cyan: Seq<char>,
    pub white: Seq<char>,
}

/// Mathematical view of `SpecialColors`.
#[verifier::ext_equal]
pub struct SpecialColorsView {
    pub background: Seq<char>,
    pub foreground: Seq<char>,
    pub cursor: Seq<char>,
}

/// Mathematical view of a `Colors` palette.
#[verifier::ext_equal]
pub struct ColorsView {
    pub normal: ColorSetView,
    pub bright: ColorSetView,
    pub special: SpecialColorsView,
}

/// Mathematical view of a `Metadata` manifest.
#[verifier::ext_equal]
pub struct MetadataView {
    pub name: Seq<char>,
    pub author: Seq<char>,
    pub files: Seq<Seq<char>>,
    pub targets: Seq<Seq<char>>,
}

impl View for ColorSet {
    type V = ColorSetView;

    open spec fn view(&self) -> ColorSetView {
        ColorSetView {
            black: self.black@,
            red: self.red@,
            green: self.green@,
            yellow: self.yellow@,
            blue: self.blue@,
            magenta: self.magenta@,
            cyan: self.cyan@,
            white: self.white@,
        }
    }
}

impl View for SpecialColors {
    type V = SpecialColorsView;

    open spec fn view(&self) -> SpecialColorsView {
        SpecialColorsView {
            background: self.background@,
            foreground: self.foreground@,
            cursor: self.cursor@,
        }
    }
}

impl View for Colors {
    type V = ColorsView;

    open spec fn view(&self) -> ColorsView {
        ColorsView { normal: self.normal@, bright: self.bright@, special: self.special@ }
    }
}

impl View for Metadata {
    type V = MetadataView;

    open spec fn view(&self) -> MetadataView {
        MetadataView {
            name: self.name@,
            author: self.author@,
            files: self.files@.map_values(|f: String| f@),
            targets: self.targets@.map_values(|t: String| t@),
        }
    }
}

/// A hexadecimal digit, either case.
pub open spec fn is_hex_digit_char(c: char) -> bool {
    ('0' <= c && c <= '9') || ('a' <= c && c <= 'f') || ('A' <= c && c <= 'F')
}

/// The value of one hexadecimal digit; 0 on a character that is none.
pub open spec fn hex_digit_val(c: char) -> u8 {
    if '0' <= c && c <= '9' {
        ((c as u32) - ('0' as u32)) as u8
    } else if 'a' <= c && c <= 'f' {
        ((c as u32) - ('a' as u32) + 10) as u8
    } else if 'A' <= c && c <= 'F' {
        ((c as u32) - ('A' as u32) + 10) as u8
    } else {
        0
    }
}

/// One colour channel read from two hexadecimal digits; a channel with an
/// invalid digit is 0 rather than an error.
pub open spec fn spec_channel(hi: char, lo: char) -> u8 {
    if is_hex_digit_char(hi) && is_hex_digit_char(lo) {
        (hex_digit_val(hi) * 16 + hex_digit_val(lo)) as u8
    } else {
        0
    }
}

/// A well-formed colour value: `#` followed by six hexadecimal digits.
pub open spec fn is_hex_color(s: Seq<char>) -> bool {
    &&& s.len() == 7
    &&& s[0] == '#'
    &&& forall|i: int| 1 <= i < 7 ==> is_hex_digit_char(#[trigger] s[i])
}

/// Every slot of an eight-colour row is a well-formed colour value.
pub open spec fn color_set_wf(c: ColorSetView) -> bool {
    &&& is_hex_color(c.black)
    &&& is_hex_color(c.red)
    &&& is_hex_color(c.green)
    &&& is_hex_color(c.yellow)
    &&& is_hex_color(c.blue)
    &&& is_hex_color(c.magenta)
    &&& is_hex_color(c.cyan)
    &&& is_hex_color(c.white)
}

/// Every one of the 19 palette values is a well-formed colour value.
pub open spec fn colors_wf(c: ColorsView) -> bool {
    &&& color_set_wf(c.normal)
    &&& color_set_wf(c.bright)
    &&& is_hex_color(c.special.background)
    &&& is_hex_color(c.special.foreground)
    &&& is_hex_color(c.special.cursor)
}

} // verus!
