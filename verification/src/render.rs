//! Rendering one configuration artifact per supported target application
//! from a palette: a destination path under the user's configuration
//! directory, the full file content, and an optional reload action.

use vstd::prelude::*;

use crate::model::{Colors, ColorsView};
use crate::text::{join_lines_nl, spec_join_nl, str_eq};

verus! {

/// A post-write command asking a running application to re-read its
/// configuration, with a label for logging.
#[derive(Clone)]
pub struct ReloadAction {
    pub program: String,
    pub args: Vec<String>,
    pub label: String,
}

/// Mathematical view of a `ReloadAction`.
#[verifier::ext_equal]
pub struct ReloadActionView {
    pub program: Seq<char>,
    pub args: Seq<Seq<char>>,
    pub label: Seq<char>,
}

impl View for ReloadAction {
    type V = ReloadActionView;

    open spec fn view(&self) -> ReloadActionView {
        ReloadActionView {
            program: self.program@,
            args: self.args@.map_values(|a: String| a@),
            label: self.label@,
        }
    }
}

/// One rendered configuration artifact.
#[derive(Clone)]
pub struct RenderedConfig {
    pub dest_path: String,
    pub content: String,
    pub reload: Option<ReloadAction>,
}

/// Mathematical view of a `RenderedConfig`.
#[verifier::ext_equal]
pub struct RenderedConfigView {
    pub dest_path: Seq<char>,
    pub content: Seq<char>,
    pub reload: Option<ReloadActionView>,
}

impl View for RenderedConfig {
    type V = RenderedConfigView;

    open spec fn view(&self) -> RenderedConfigView {
        RenderedConfigView {
            dest_path: self.dest_path@,
            content: self.content@,
            reload: match self.reload {
                Some(r) => Some(r@),
                None => None,
            },
        }
    }
}

/// Why a target could not be rendered.
#[derive(Clone, Copy, Debug, PartialEq, Eq, Structural)]
pub enum RenderError {
    /// The target identifier is not one the renderer knows.
    UnsupportedTarget,
}

/// The colour value without its leading `#`, for formats that want bare
/// hexadecimal digits.
pub open spec fn strip_hash(v: Seq<char>) -> Seq<char> {
    if v.len() > 0 && v[0] == '#' {
        v.drop_first()
    } else {
        v
    }
}

/// Removes a leading `#` from a colour value.
fn strip_hash_string(s: &str) -> (r: String)
    ensures
        r@ == strip_hash(s@),
{
    let n = s.unicode_len();
    if n > 0 && s.get_char(0) == '#' {
        let r = s.substring_char(1, n).to_owned();
        proof {
            assert(s@.subrange(1, n as int) =~= s@.drop_first());
        }
        r
    } else {
        s.to_owned()
    }
}

/// The concatenation of two strings.
fn cat2(a: &str, b: &str) -> (r: String)
    ensures
        r@ == a@ + b@,
{
    let mut s = a.to_owned();
    s.append(b);
    s
}

/// The concatenation of three strings.
fn cat3(a: &str, b: &str, c: &str) -> (r: String)
    ensures
        r@ == a@ + b@ + c@,
{
    let mut s = a.to_owned();
    s.append(b);
    s.append(c);
    s
}

/// The concatenation of four strings.
fn cat4(a: &str, b: &str, c: &str, d: &str) -> (r: String)
    ensures
        r@ == a@ + b@ + c@ + d@,
{
    let mut s = a.to_owned();
    s.append(b);
    s.append(c);
    s.append(d);
    s
}

/// The lines of the kitty terminal colour file.
pub open spec fn spec_kitty_lines(v: ColorsView) -> Seq<Seq<char>> {
    seq![
        "foreground "@ + v.special.foreground,
        "background "@ + v.special.background,
        "cursor "@ + v.special.cursor,
        "color0 "@ + v.normal.black,
        "color1 "@ + v.normal.red,
        "color2 "@ + v.normal.green,
        "color3 "@ + v.normal.yellow,
        "color4 "@ + v.normal.blue,
        "color5 "@ + v.normal.magenta,
        "color6 "@ + v.normal.cyan,
        "color7 "@ + v.normal.white,
        "color8 "@ + v.bright.black,
        "color9 "@ + v.bright.red,
        "color10 "@ + v.bright.green,
        "color11 "@ + v.bright.yellow,
        "color12 "@ + v.bright.blue,
        "color13 "@ + v.bright.magenta,
        "color14 "@ + v.bright.cyan,
        "color15 "@ + v.bright.white,
    ]
}

/// Builds the lines of the kitty terminal colour file.
fn kitty_lines(c: &Colors) -> (lines: Vec<String>)
    ensures
        lines@.map_values(|l: String| l@) == spec_kitty_lines(c@),
{
    let mut lines: Vec<String> = Vec::new();
    lines.push(cat2("foreground ", c.special.foreground.as_str()));
    lines.push(cat2("background ", c.special.background.as_str()));
    lines.push(cat2("cursor ", c.special.cursor.as_str()));
    lines.push(cat2("color0 ", c.normal.black.as_str()));
    lines.push(cat2("color1 ", c.normal.red.as_str()));
    lines.push(cat2("color2 ", c.normal.green.as_str()));
    lines.push(cat2("color3 ", c.normal.yellow.as_str()));
    lines.push(cat2("color4 ", c.normal.blue.as_str()));
    lines.push(cat2("color5 ", c.normal.magenta.as_str()));
    lines.push(cat2("color6 ", c.normal.cyan.as_str()));
    lines.push(cat2("color7 ", c.normal.white.as_str()));
    lines.push(cat2("color8 ", c.bright.black.as_str()));
    lines.push(cat2("color9 ", c.bright.red.as_str()));
    lines.push(cat2("color10 ", c.bright.green.as_str()));
    lines.push(cat2("color11 ", c.bright.yellow.as_str()));
    lines.push(cat2("color12 ", c.bright.blue.as_str()));
    lines.push(cat2("color13 ", c.bright.magenta.as_str()));
    lines.push(cat2("color14 ", c.bright.cyan.as_str()));
    lines.push(cat2("color15 ", c.bright.white.as_str()));
    proof {
        assert(lines@.map_values(|l: String| l@) =~= spec_kitty_lines(c@));
    }
    lines
}

/// The lines of the waybar style-variable file.
pub open spec fn spec_waybar_lines(v: ColorsView) -> Seq<Seq<char>> {
    seq![
        "@define-color background "@ + v.special.background + ";"@,
        "@define-color foreground "@ + v.special.foreground + ";"@,
        "@define-color cursor "@ + v.special.cursor + ";"@,
        "@define-color color0 "@ + v.normal.black + ";"@,
        "@define-color color1 "@ + v.normal.red + ";"@,
        "@define-color color2 "@ + v.normal.green + ";"@,
        "@define-color color3 "@ + v.normal.yellow + ";"@,
        "@define-color color4 "@ + v.normal.blue + ";"@,
        "@define-color color5 "@ + v.normal.magenta + ";"@,
        "@define-color color6 "@ + v.normal.cyan + ";"@,
        "@define-color color7 "@ + v.normal.white + ";"@,
        "@define-color color8 "@ + v.bright.black + ";"@,
        "@define-color color9 "@ + v.bright.red + ";"@,
        "@define-color color10 "@ + v.bright.green + ";"@,
        "@define-color color11 "@ + v.bright.yellow + ";"@,
        "@define-color color12 "@ + v.bright.blue + ";"@,
        "@define-color color13 "@ + v.bright.magenta + ";"@,
        "@define-color color14 "@ + v.bright.cyan + ";"@,
        "@define-color color15 "@ + v.bright.white + ";"@,
    ]
}

/// Builds the lines of the waybar style-variable file.
fn waybar_lines(c: &Colors) -> (lines: Vec<String>)
    ensures
        lines@.map_values(|l: String| l@) == spec_waybar_lines(c@),
{
    let mut lines: Vec<String> = Vec::new();
    lines.push(cat3("@define-color background ", c.special.background.as_str(), ";"));
    lines.push(cat3("@define-color foreground ", c.special.foreground.as_str(), ";"));
    lines.push(cat3("@define-color cursor ", c.special.cursor.as_str(), ";"));
    lines.push(cat3("@define-color color0 ", c.normal.black.as_str(), ";"));
    lines.push(cat3("@define-color color1 ", c.normal.red.as_str(), ";"));
    lines.push(cat3("@define-color color2 ", c.normal.green.as_str(), ";"));
    lines.push(cat3("@define-color color3 ", c.normal.yellow.as_str(), ";"));
    lines.push(cat3("@define-color color4 ", c.normal.blue.as_str(), ";"));
    lines.push(cat3("@define-color color5 ", c.normal.magenta.as_str(), ";"));
    lines.push(cat3("@define-color color6 ", c.normal.cyan.as_str(), ";"));
    lines.push(cat3("@define-color color7 ", c.normal.white.as_str(), ";"));
    lines.push(cat3("@define-color color8 ", c.bright.black.as_str(), ";"));
    lines.push(cat3("@define-color color9 ", c.bright.red.as_str(), ";"));
    lines.push(cat3("@define-color color10 ", c.bright.green.as_str(), ";"));
    lines.push(cat3("@define-color color11 ", c.bright.yellow.as_str(), ";"));
    lines.push(cat3("@define-color color12 ", c.bright.blue.as_str(), ";"));
    lines.push(cat3("@define-color color13 ", c.bright.magenta.as_str(), ";"));
    lines.push(cat3("@define-color color14 ", c.bright.cyan.as_str(), ";"));
    lines.push(cat3("@define-color color15 ", c.bright.white.as_str(), ";"));
    proof {
        assert(lines@.map_values(|l: String| l@) =~= spec_waybar_lines(c@));
    }
    lines
}

/// The lines of the Hyprland colour-variable file.
pub open spec fn spec_hyprland_lines(v: ColorsView) -> Seq<Seq<char>> {
    seq![
        "$background = rgb("@ + strip_hash(v.special.background) + ")"@,
        "$foreground = rgb("@ + strip_hash(v.special.foreground) + ")"@,
        "$cursor = rgb("@ + strip_hash(v.special.cursor) + ")"@,
        "$color0 = rgb("@ + strip_hash(v.normal.black) + ")"@,
        "$color1 = rgb("@ + strip_hash(v.normal.red) + ")"@,
        "$color2 = rgb("@ + strip_hash(v.normal.green) + ")"@,
        "$color3 = rgb("@ + strip_hash(v.normal.yellow) + ")"@,
        "$color4 = rgb("@ + strip_hash(v.normal.blue) + ")"@,
        "$color5 = rgb("@ + strip_hash(v.normal.magenta) + ")"@,
        "$color6 = rgb("@ + strip_hash(v.normal.cyan) + ")"@,
        "$color7 = rgb("@ + strip_hash(v.normal.white) + ")"@,
        "$color8 = rgb("@ + strip_hash(v.bright.black) + ")"@,
        "$color9 = rgb("@ + strip_hash(v.bright.red) + ")"@,
        "$color10 = rgb("@ + strip_hash(v.bright.green) + ")"@,
        "$color11 = rgb("@ + strip_hash(v.bright.yellow) + ")"@,
        "$color12 = rgb("@ + strip_hash(v.bright.blue) + ")"@,
        "$color13 = rgb("@ + strip_hash(v.bright.magenta) + ")"@,
        "$color14 = rgb("@ + strip_hash(v.bright.cyan) + ")"@,
        "$color15 = rgb("@ + strip_hash(v.bright.white) + ")"@,
    ]
}

/// Builds the lines of the Hyprland colour-variable file.
fn hyprland_lines(c: &Colors) -> (lines: Vec<String>)
    ensures
        lines@.map_values(|l: String| l@) == spec_hyprland_lines(c@),
{
    let mut lines: Vec<String> = Vec::new();

    let sv = strip_hash_string(c.special.background.as_str());
    lines.push(cat3("$background = rgb(", sv.as_str(), ")"));
    let sv = strip_hash_string(c.special.foreground.as_str());
    lines.push(cat3("$foreground = rgb(", sv.as_str(), ")"));
    let sv = strip_hash_string(c.special.cursor.as_str());
    lines.push(cat3("$cursor = rgb(", sv.as_str(), ")"));
    let sv = strip_hash_string(c.normal.black.as_str());
    lines.push(cat3("$color0 = rgb(", sv.as_str(), ")"));
    let sv = strip_hash_string(c.normal.red.as_str());
    lines.push(cat3("$color1 = rgb(", sv.as_str(), ")"));
    let sv = strip_hash_string(c.normal.green.as_str());
    lines.push(cat3("$color2 = rgb(", sv.as_str(), ")"));
    let sv = strip_hash_string(c.normal.yellow.as_str());
    lines.push(cat3("$color3 = rgb(", sv.as_str(), ")"));
    let sv = strip_hash_string(c.normal.blue.as_str());
    lines.push(cat3("$color4 = rgb(", sv.as_str(), ")"));
    let sv = strip_hash_string(c.normal.magenta.as_str());
    lines.push(cat3("$color5 = rgb(", sv.as_str(), ")"));
    let sv = strip_hash_string(c.normal.cyan.as_str());
    lines.push(cat3("$color6 = rgb(", sv.as_str(), ")"));
    let sv = strip_hash_string(c.normal.white.as_str());
    lines.push(cat3("$color7 = rgb(", sv.as_str(), ")"));
    let sv = strip_hash_string(c.bright.black.as_str());
    lines.push(cat3("$color8 = rgb(", sv.as_str(), ")"));
    let sv = strip_hash_string(c.bright.red.as_str());
    lines.push(cat3("$color9 = rgb(", sv.as_str(), ")"));
    let sv = strip_hash_string(c.bright.green.as_str());
    lines.push(cat3("$color10 = rgb(", sv.as_str(), ")"));
    let sv = strip_hash_string(c.bright.yellow.as_str());
    lines.push(cat3("$color11 = rgb(", sv.as_str(), ")"));
    let sv = strip_hash_string(c.bright.blue.as_str());
    lines.push(cat3("$color12 = rgb(", sv.as_str(), ")"));
    let sv = strip_hash_string(c.bright.magenta.as_str());
    lines.push(cat3("$color13 = rgb(", sv.as_str(), ")"));
    let sv = strip_hash_string(c.bright.cyan.as_str());
    lines.push(cat3("$color14 = rgb(", sv.as_str(), ")"));
    let sv = strip_hash_string(c.bright.white.as_str());
    lines.push(cat3("$color15 = rgb(", sv.as_str(), ")"));
    proof {
        assert(lines@.map_values(|l: String| l@) =~= spec_hyprland_lines(c@));
    }
    lines
}

/// The lines of the rofi colour file.
pub open spec fn spec_rofi_lines(v: ColorsView) -> Seq<Seq<char>> {
    seq![
        "* {"@,
        "    background: "@ + v.special.background + ";"@,
        "    foreground: "@ + v.special.foreground + ";"@,
        "    cursor: "@ + v.special.cursor + ";"@,
        "    color0: "@ + v.normal.black + ";"@,
        "    color1: "@ + v.normal.red + ";"@,
        "    color2: "@ + v.normal.green + ";"@,
        "    color3: "@ + v.normal.yellow + ";"@,
        "    color4: "@ + v.normal.blue + ";"@,
        "    color5: "@ + v.normal.magenta + ";"@,
        "    color6: "@ + v.normal.cyan + ";"@,
        "    color7: "@ + v.normal.white + ";"@,
        "    color8: "@ + v.bright.black + ";"@,
        "    color9: "@ + v.bright.red + ";"@,
        "    color10: "@ + v.bright.green + ";"@,
        "    color11: "@ + v.bright.yellow + ";"@,
        "    color12: "@ + v.bright.blue + ";"@,
        "    color13: "@ + v.bright.magenta + ";"@,
        "    color14: "@ + v.bright.cyan + ";"@,
        "    color15: "@ + v.bright.white + ";"@,
        "}"@,
    ]
}

/// Builds the lines of the rofi colour file.
fn rofi_lines(c: &Colors) -> (lines: Vec<String>)
    ensures
        lines@.map_values(|l: String| l@) == spec_rofi_lines(c@),
{
    let mut lines: Vec<String> = Vec::new();
    lines.push("* {".to_owned());
    lines.push(cat3("    background: ", c.special.background.as_str(), ";"));
    lines.push(cat3("    foreground: ", c.special.foreground.as_str(), ";"));
    lines.push(cat3("    cursor: ", c.special.cursor.as_str(), ";"));
    lines.push(cat3("    color0: ", c.normal.black.as_str(), ";"));
    lines.push(cat3("    color1: ", c.normal.red.as_str(), ";"));
    lines.push(cat3("    color2: ", c.normal.green.as_str(), ";"));
    lines.push(cat3("    color3: ", c.normal.yellow.as_str(), ";"));
    lines.push(cat3("    color4: ", c.normal.blue.as_str(), ";"));
    lines.push(cat3("    color5: ", c.normal.magenta.as_str(), ";"));
    lines.push(cat3("    color6: ", c.normal.cyan.as_str(), ";"));
    lines.push(cat3("    color7: ", c.normal.white.as_str(), ";"));
    lines.push(cat3("    color8: ", c.bright.black.as_str(), ";"));
    lines.push(cat3("    color9: ", c.bright.red.as_str(), ";"));
    lines.push(cat3("    color10: ", c.bright.green.as_str(), ";"));
    lines.push(cat3("    color11: ", c.bright.yellow.as_str(), ";"));
    lines.push(cat3("    color12: ", c.bright.blue.as_str(), ";"));
    lines.push(cat3("    color13: ", c.bright.magenta.as_str(), ";"));
    lines.push(cat3("    color14: ", c.bright.cyan.as_str(), ";"));
    lines.push(cat3("    color15: ", c.bright.white.as_str(), ";"));
    lines.push("}".to_owned());
    proof {
        assert(lines@.map_values(|l: String| l@) =~= spec_rofi_lines(c@));
    }
    lines
}

/// The lines of the dunst notification colour file.
pub open spec fn spec_dunst_lines(v: ColorsView) -> Seq<Seq<char>> {
    seq![
        "[global]"@,
        "frame_color = \""@ + v.normal.blue + "\""@,
        "[urgency_low]"@,
        "background = \""@ + v.special.background + "\""@,
        "foreground = \""@ + v.special.foreground + "\""@,
        "[urgency_normal]"@,
        "background = \""@ + v.special.background + "\""@,
        "foreground = \""@ + v.special.foreground + "\""@,
        "[urgency_critical]"@,
        "background = \""@ + v.special.background + "\""@,
        "foreground = \""@ + v.special.foreground + "\""@,
        "frame_color = \""@ + v.normal.red + "\""@,
    ]
}

/// Builds the lines of the dunst notification colour file.
fn dunst_lines(c: &Colors) -> (lines: Vec<String>)
    ensures
        lines@.map_values(|l: String| l@) == spec_dunst_lines(c@),
{
    let mut lines: Vec<String> = Vec::new();
    lines.push("[global]".to_owned());
    lines.push(cat3("frame_color = \"", c.normal.blue.as_str(), "\""));
    lines.push("[urgency_low]".to_owned());
    lines.push(cat3("background = \"", c.special.background.as_str(), "\""));
    lines.push(cat3("foreground = \"", c.special.foreground.as_str(), "\""));
    lines.push("[urgency_normal]".to_owned());
    lines.push(cat3("background = \"", c.special.background.as_str(), "\""));
    lines.push(cat3("foreground = \"", c.special.foreground.as_str(), "\""));
    lines.push("[urgency_critical]".to_owned());
    lines.push(cat3("background = \"", c.special.background.as_str(), "\""));
    lines.push(cat3("foreground = \"", c.special.foreground.as_str(), "\""));
    lines.push(cat3("frame_color = \"", c.normal.red.as_str(), "\""));
    proof {
        assert(lines@.map_values(|l: String| l@) =~= spec_dunst_lines(c@));
    }
    lines
}

/// The lines of the foot terminal colour file.
pub open spec fn spec_foot_lines(v: ColorsView) -> Seq<Seq<char>> {
    seq![
        "[colors]"@,
        "background="@ + strip_hash(v.special.background),
        "foreground="@ + strip_hash(v.special.foreground),
        "regular0="@ + strip_hash(v.normal.black),
        "regular1="@ + strip_hash(v.normal.red),
        "regular2="@ + strip_hash(v.normal.green),
        "regular3="@ + strip_hash(v.normal.yellow),
        "regular4="@ + strip_hash(v.normal.blue),
        "regular5="@ + strip_hash(v.normal.magenta),
        "regular6="@ + strip_hash(v.normal.cyan),
        "regular7="@ + strip_hash(v.normal.white),
        "bright0="@ + strip_hash(v.bright.black),
        "bright1="@ + strip_hash(v.bright.red),
        "bright2="@ + strip_hash(v.bright.green),
        "bright3="@ + strip_hash(v.bright.yellow),
        "bright4="@ + strip_hash(v.bright.blue),
        "bright5="@ + strip_hash(v.bright.magenta),
        "bright6="@ + strip_hash(v.bright.cyan),
        "bright7="@ + strip_hash(v.bright.white),
        "[cursor]"@,
        "color="@ + strip_hash(v.special.cursor),
    ]
}

/// Builds the lines of the foot terminal colour file.
fn foot_lines(c: &Colors) -> (lines: Vec<String>)
    ensures
        lines@.map_values(|l: String| l@) == spec_foot_lines(c@),
{
    let mut lines: Vec<String> = Vec::new();
    lines.push("[colors]".to_owned());
    let sv = strip_hash_string(c.special.background.as_str());
    lines.push(cat2("background=", sv.as_str()));
    let sv = strip_hash_string(c.special.foreground.as_str());
    lines.push(cat2("foreground=", sv.as_str()));
    let sv = strip_hash_string(c.normal.black.as_str());
    lines.push(cat2("regular0=", sv.as_str()));
    let sv = strip_hash_string(c.normal.red.as_str());
    lines.push(cat2("regular1=", sv.as_str()));
    let sv = strip_hash_string(c.normal.green.as_str());
    lines.push(cat2("regular2=", sv.as_str()));
    let sv = strip_hash_string(c.normal.yellow.as_str());
    lines.push(cat2("regular3=", sv.as_str()));
    let sv = strip_hash_string(c.normal.blue.as_str());
    lines.push(cat2("regular4=", sv.as_str()));
    let sv = strip_hash_string(c.normal.magenta.as_str());
    lines.push(cat2("regular5=", sv.as_str()));
    let sv = strip_hash_string(c.normal.cyan.as_str());
    lines.push(cat2("regular6=", sv.as_str()));
    let sv = strip_hash_string(c.normal.white.as_str());
    lines.push(cat2("regular7=", sv.as_str()));
    let sv = strip_hash_string(c.bright.black.as_str());
    lines.push(cat2("bright0=", sv.as_str()));
    let sv = strip_hash_string(c.bright.red.as_str());
    lines.push(cat2("bright1=", sv.as_str()));
    let sv = strip_hash_string(c.bright.green.as_str());
    lines.push(cat2("bright2=", sv.as_str()));
    let sv = strip_hash_string(c.bright.yellow.as_str());
    lines.push(cat2("bright3=", sv.as_str()));
    let sv = strip_hash_string(c.bright.blue.as_str());
    lines.push(cat2("bright4=", sv.as_str()));
    let sv = strip_hash_string(c.bright.magenta.as_str());
    lines.push(cat2("bright5=", sv.as_str()));
    let sv = strip_hash_string(c.bright.cyan.as_str());
    lines.push(cat2("bright6=", sv.as_str()));
    let sv = strip_hash_string(c.bright.white.as_str());
    lines.push(cat2("bright7=", sv.as_str()));
    lines.push("[cursor]".to_owned());
    let sv = strip_hash_string(c.special.cursor.as_str());
    lines.push(cat2("color=", sv.as_str()));
    proof {
        assert(lines@.map_values(|l: String| l@) =~= spec_foot_lines(c@));
    }
    lines
}

/// The lines of the GTK colour-variable file.
pub open spec fn spec_gtk_lines(v: ColorsView) -> Seq<Seq<char>> {
    seq![
        "@define-color background "@ + v.special.background + ";"@,
        "@define-color foreground "@ + v.special.foreground + ";"@,
        "@define-color cursor "@ + v.special.cursor + ";"@,
        "@define-color color0 "@ + v.normal.black + ";"@,
        "@define-color color1 "@ + v.normal.red + ";"@,
        "@define-color color2 "@ + v.normal.green + ";"@,
        "@define-color color3 "@ + v.normal.yellow + ";"@,
        "@define-color color4 "@ + v.normal.blue + ";"@,
        "@define-color color5 "@ + v.normal.magenta + ";"@,
        "@define-color color6 "@ + v.normal.cyan + ";"@,
        "@define-color color7 "@ + v.normal.white + ";"@,
        "@define-color color8 "@ + v.bright.black + ";"@,
        "@define-color color9 "@ + v.bright.red + ";"@,
        "@define-color color10 "@ + v.bright.green + ";"@,
        "@define-color color11 "@ + v.bright.yellow + ";"@,
        "@define-color color12 "@ + v.bright.blue + ";"@,
        "@define-color color13 "@ + v.bright.magenta + ";"@,
        "@define-color color14 "@ + v.bright.cyan + ";"@,
        "@define-color color15 "@ + v.bright.white + ";"@,
    ]
}

/// Builds the lines of the GTK colour-variable file.
fn gtk_lines(c: &Colors) -> (lines: Vec<String>)
    ensures
        lines@.map_values(|l: String| l@) == spec_gtk_lines(c@),
{
    let mut lines: Vec<String> = Vec::new();
    lines.push(cat3("@define-color background ", c.special.background.as_str(), ";"));
    lines.push(cat3("@define-color foreground ", c.special.foreground.as_str(), ";"));
    lines.push(cat3("@define-color cursor ", c.special.cursor.as_str(), ";"));
    lines.push(cat3("@define-color color0 ", c.normal.black.as_str(), ";"));
    lines.push(cat3("@define-color color1 ", c.normal.red.as_str(), ";"));
    lines.push(cat3("@define-color color2 ", c.normal.green.as_str(), ";"));
    lines.push(cat3("@define-color color3 ", c.normal.yellow.as_str(), ";"));
    lines.push(cat3("@define-color color4 ", c.normal.blue.as_str(), ";"));
    lines.push(cat3("@define-color color5 ", c.normal.magenta.as_str(), ";"));
    lines.push(cat3("@define-color color6 ", c.normal.cyan.as_str(), ";"));
    lines.push(cat3("@define-color color7 ", c.normal.white.as_str(), ";"));
    lines.push(cat3("@define-color color8 ", c.bright.black.as_str(), ";"));
    lines.push(cat3("@define-color color9 ", c.bright.red.as_str(), ";"));
    lines.push(cat3("@define-color color10 ", c.bright.green.as_str(), ";"));
    lines.push(cat3("@define-color color11 ", c.bright.yellow.as_str(), ";"));
    lines.push(cat3("@define-color color12 ", c.bright.blue.as_str(), ";"));
    lines.push(cat3("@define-color color13 ", c.bright.magenta.as_str(), ";"));
    lines.push(cat3("@define-color color14 ", c.bright.cyan.as_str(), ";"));
    lines.push(cat3("@define-color color15 ", c.bright.white.as_str(), ";"));
    proof {
        assert(lines@.map_values(|l: String| l@) =~= spec_gtk_lines(c@));
    }
    lines
}

/// The lines of the Neovim colour-scheme file.
pub open spec fn spec_neovim_lines(v: ColorsView) -> Seq<Seq<char>> {
    seq![
        "let g:terminal_color_0 = '"@ + v.normal.black + "'"@,
        "let g:terminal_color_1 = '"@ + v.normal.red + "'"@,
        "let g:terminal_color_2 = '"@ + v.normal.green + "'"@,
        "let g:terminal_color_3 = '"@ + v.normal.yellow + "'"@,
        "let g:terminal_color_4 = '"@ + v.normal.blue + "'"@,
        "let g:terminal_color_5 = '"@ + v.normal.magenta + "'"@,
        "let g:terminal_color_6 = '"@ + v.normal.cyan + "'"@,
        "let g:terminal_color_7 = '"@ + v.normal.white + "'"@,
        "let g:terminal_color_8 = '"@ + v.bright.black + "'"@,
        "let g:terminal_color_9 = '"@ + v.bright.red + "'"@,
        "let g:terminal_color_10 = '"@ + v.bright.green + "'"@,
        "let g:terminal_color_11 = '"@ + v.bright.yellow + "'"@,
        "let g:terminal_color_12 = '"@ + v.bright.blue + "'"@,
        "let g:terminal_color_13 = '"@ + v.bright.magenta + "'"@,
        "let g:terminal_color_14 = '"@ + v.bright.cyan + "'"@,
        "let g:terminal_color_15 = '"@ + v.bright.white + "'"@,
        "highlight Normal guifg="@ + v.special.foreground + " guibg="@ + v.special.background,
        "highlight Cursor guibg="@ + v.special.cursor,
    ]
}

/// Builds the lines of the Neovim colour-scheme file.
fn neovim_lines(c: &Colors) -> (lines: Vec<String>)
    ensures
        lines@.map_values(|l: String| l@) == spec_neovim_lines(c@),
{
    let mut lines: Vec<String> = Vec::new();
    lines.push(cat3("let g:terminal_color_0 = '", c.normal.black.as_str(), "'"));
    lines.push(cat3("let g:terminal_color_1 = '", c.normal.red.as_str(), "'"));
    lines.push(cat3("let g:terminal_color_2 = '", c.normal.green.as_str(), "'"));
    lines.push(cat3("let g:terminal_color_3 = '", c.normal.yellow.as_str(), "'"));
    lines.push(cat3("let g:terminal_color_4 = '", c.normal.blue.as_str(), "'"));
    lines.push(cat3("let g:terminal_color_5 = '", c.normal.magenta.as_str(), "'"));
    lines.push(cat3("let g:terminal_color_6 = '", c.normal.cyan.as_str(), "'"));
    lines.push(cat3("let g:terminal_color_7 = '", c.normal.white.as_str(), "'"));
    lines.push(cat3("let g:terminal_color_8 = '", c.bright.black.as_str(), "'"));
    lines.push(cat3("let g:terminal_color_9 = '", c.bright.red.as_str(), "'"));
    lines.push(cat3("let g:terminal_color_10 = '", c.bright.green.as_str(), "'"));
    lines.push(cat3("let g:terminal_color_11 = '", c.bright.yellow.as_str(), "'"));
    lines.push(cat3("let g:terminal_color_12 = '", c.bright.blue.as_str(), "'"));
    lines.push(cat3("let g:terminal_color_13 = '", c.bright.magenta.as_str(), "'"));
    lines.push(cat3("let g:terminal_color_14 = '", c.bright.cyan.as_str(), "'"));
    lines.push(cat3("let g:terminal_color_15 = '", c.bright.white.as_str(), "'"));
    lines.push(cat4("highlight Normal guifg=", c.special.foreground.as_str(), " guibg=", c.special.background.as_str()));
    lines.push(cat2("highlight Cursor guibg=", c.special.cursor.as_str()));
    proof {
        assert(lines@.map_values(|l: String| l@) =~= spec_neovim_lines(c@));
    }
    lines
}

/// The eight supported target identifiers are pairwise distinct.
proof fn lemma_target_names_distinct()
    ensures
        "waybar"@ != "kitty"@,
        "hyprland"@ != "kitty"@,
        "hyprland"@ != "waybar"@,
        "rofi"@ != "kitty"@,
        "rofi"@ != "waybar"@,
        "rofi"@ != "hyprland"@,
        "dunst"@ != "kitty"@,
        "dunst"@ != "waybar"@,
        "dunst"@ != "hyprland"@,
        "dunst"@ != "rofi"@,
        "foot"@ != "kitty"@,
        "foot"@ != "waybar"@,
        "foot"@ != "hyprland"@,
        "foot"@ != "rofi"@,
        "foot"@ != "dunst"@,
        "gtk"@ != "kitty"@,
        "gtk"@ != "waybar"@,
        "gtk"@ != "hyprland"@,
        "gtk"@ != "rofi"@,
        "gtk"@ != "dunst"@,
        "gtk"@ != "foot"@,
        "neovim"@ != "kitty"@,
        "neovim"@ != "waybar"@,
        "neovim"@ != "hyprland"@,
        "neovim"@ != "rofi"@,
        "neovim"@ != "dunst"@,
        "neovim"@ != "foot"@,
        "neovim"@ != "gtk"@,
{
    reveal_strlit("kitty");
    reveal_strlit("waybar");
    reveal_strlit("hyprland");
    reveal_strlit("rofi");
    reveal_strlit("dunst");
    reveal_strlit("foot");
    reveal_strlit("gtk");
    reveal_strlit("neovim");
    assert(("kitty"@)[0] == 'k');
    assert(("waybar"@)[0] == 'w');
    assert(("hyprland"@)[0] == 'h');
    assert(("rofi"@)[0] == 'r');
    assert(("dunst"@)[0] == 'd');
    assert(("foot"@)[0] == 'f');
    assert(("gtk"@)[0] == 'g');
    assert(("neovim"@)[0] == 'n');
}

/// What rendering yields for a target identifier: the artifact for each
/// of the eight supported targets, nothing for any other identifier.
pub open spec fn spec_render(t: Seq<char>, v: ColorsView, home: Seq<char>) -> Option<
    RenderedConfigView,
> {
    if t == "kitty"@ {
        Some(
            RenderedConfigView {
                dest_path: home + "/.config/kitty/themey.conf"@,
                content: spec_join_nl(spec_kitty_lines(v)),
                reload: Some(ReloadActionView { program: "killall"@, args: seq!["-SIGUSR1"@, "kitty"@], label: "kitty"@ }),
            },
        )
    } else if t == "waybar"@ {
        Some(
            RenderedConfigView {
                dest_path: home + "/.config/waybar/themey.css"@,
                content: spec_join_nl(spec_waybar_lines(v)),
                reload: Some(ReloadActionView { program: "killall"@, args: seq!["-SIGUSR2"@, "waybar"@], label: "waybar"@ }),
            },
        )
    } else if t == "hyprland"@ {
        Some(
            RenderedConfigView {
                dest_path: home + "/.config/hypr/themey.conf"@,
                content: spec_join_nl(spec_hyprland_lines(v)),
                reload: Some(ReloadActionView { program: "hyprctl"@, args: seq!["reload"@], label: "Hyprland"@ }),
            },
        )
    } else if t == "rofi"@ {
        Some(
            RenderedConfigView {
                dest_path: home + "/.config/rofi/themey.rasi"@,
                content: spec_join_nl(spec_rofi_lines(v)),
                reload: None,
            },
        )
    } else if t == "dunst"@ {
        Some(
            RenderedConfigView {
                dest_path: home + "/.config/dunst/dunstrc.d/themey.conf"@,
                content: spec_join_nl(spec_dunst_lines(v)),
                reload: Some(ReloadActionView { program: "killall"@, args: seq!["dunst"@], label: "dunst"@ }),
            },
        )
    } else if t == "foot"@ {
        Some(
            RenderedConfigView {
                dest_path: home + "/.config/foot/themey.ini"@,
                content: spec_join_nl(spec_foot_lines(v)),
                reload: None,
            },
        )
    } else if t == "gtk"@ {
        Some(
            RenderedConfigView {
                dest_path: home + "/.config/gtk-3.0/themey.css"@,
                content: spec_join_nl(spec_gtk_lines(v)),
                reload: None,
            },
        )
    } else if t == "neovim"@ {
        Some(
            RenderedConfigView {
                dest_path: home + "/.config/nvim/colors/themey.vim"@,
                content: spec_join_nl(spec_neovim_lines(v)),
                reload: None,
            },
        )
    } else {
        None
    }
}

/// Renders the kitty terminal colour file and its destination.
fn render_kitty(c: &Colors, home: &str) -> (rc: RenderedConfig)
    ensures
        rc@ == spec_render("kitty"@, c@, home@)->0,
{
    let dest_path = cat2(home, "/.config/kitty/themey.conf");
    let lines = kitty_lines(c);
    let content = join_lines_nl(&lines);
    let mut args: Vec<String> = Vec::new();
    args.push("-SIGUSR1".to_owned()); args.push("kitty".to_owned());
    let ra = ReloadAction { program: "killall".to_owned(), args, label: "kitty".to_owned() };
    let rc = RenderedConfig { dest_path, content, reload: Some(ra) };
    proof {
        lemma_target_names_distinct();
        assert(rc@ =~~= spec_render("kitty"@, c@, home@)->0);
    }
    rc
}

/// Renders the waybar style-variable file and its destination.
fn render_waybar(c: &Colors, home: &str) -> (rc: RenderedConfig)
    ensures
        rc@ == spec_render("waybar"@, c@, home@)->0,
{
    let dest_path = cat2(home, "/.config/waybar/themey.css");
    let lines = waybar_lines(c);
    let content = join_lines_nl(&lines);
    let mut args: Vec<String> = Vec::new();
    args.push("-SIGUSR2".to_owned()); args.push("waybar".to_owned());
    let ra = ReloadAction { program: "killall".to_owned(), args, label: "waybar".to_owned() };
    let rc = RenderedConfig { dest_path, content, reload: Some(ra) };
    proof {
        lemma_target_names_distinct();
        assert(rc@ =~~= spec_render("waybar"@, c@, home@)->0);
    }
    rc
}

/// Renders the Hyprland colour-variable file and its destination.
fn render_hyprland(c: &Colors, home: &str) -> (rc: RenderedConfig)
    ensures
        rc@ == spec_render("hyprland"@, c@, home@)->0,
{
    let dest_path = cat2(home, "/.config/hypr/themey.conf");
    let lines = hyprland_lines(c);
    let content = join_lines_nl(&lines);
    let mut args: Vec<String> = Vec::new();
    args.push("reload".to_owned());
    let ra = ReloadAction { program: "hyprctl".to_owned(), args, label: "Hyprland".to_owned() };
    let rc = RenderedConfig { dest_path, content, reload: Some(ra) };
    proof {
        lemma_target_names_distinct();
        assert(rc@ =~~= spec_render("hyprland"@, c@, home@)->0);
    }
    rc
}

/// Renders the rofi colour file and its destination.
fn render_rofi(c: &Colors, home: &str) -> (rc: RenderedConfig)
    ensures
        rc@ == spec_render("rofi"@, c@, home@)->0,
{
    let dest_path = cat2(home, "/.config/rofi/themey.rasi");
    let lines = rofi_lines(c);
    let content = join_lines_nl(&lines);
    let rc = RenderedConfig { dest_path, content, reload: None };
    proof {
        lemma_target_names_distinct();
        assert(rc@ =~~= spec_render("rofi"@, c@, home@)->0);
    }
    rc
}

/// Renders the dunst notification colour file and its destination.
fn render_dunst(c: &Colors, home: &str) -> (rc: RenderedConfig)
    ensures
        rc@ == spec_render("dunst"@, c@, home@)->0,
{
    let dest_path = cat2(home, "/.config/dunst/dunstrc.d/themey.conf");
    let lines = dunst_lines(c);
    let content = join_lines_nl(&lines);
    let mut args: Vec<String> = Vec::new();
    args.push("dunst".to_owned());
    let ra = ReloadAction { program: "killall".to_owned(), args, label: "dunst".to_owned() };
    let rc = RenderedConfig { dest_path, content, reload: Some(ra) };
    proof {
        lemma_target_names_distinct();
        assert(rc@ =~~= spec_render("dunst"@, c@, home@)->0);
    }
    rc
}

/// Renders the foot terminal colour file and its destination.
fn render_foot(c: &Colors, home: &str) -> (rc: RenderedConfig)
    ensures
        rc@ == spec_render("foot"@, c@, home@)->0,
{
    let dest_path = cat2(home, "/.config/foot/themey.ini");
    let lines = foot_lines(c);
    let content = join_lines_nl(&lines);
    let rc = RenderedConfig { dest_path, content, reload: None };
    proof {
        lemma_target_names_distinct();
        assert(rc@ =~~= spec_render("foot"@, c@, home@)->0);
    }
    rc
}

/// Renders the GTK colour-variable file and its destination.
fn render_gtk(c: &Colors, home: &str) -> (rc: RenderedConfig)
    ensures
        rc@ == spec_render("gtk"@, c@, home@)->0,
{
    let dest_path = cat2(home, "/.config/gtk-3.0/themey.css");
    let lines = gtk_lines(c);
    let content = join_lines_nl(&lines);
    let rc = RenderedConfig { dest_path, content, reload: None };
    proof {
        lemma_target_names_distinct();
        assert(rc@ =~~= spec_render("gtk"@, c@, home@)->0);
    }
    rc
}

/// Renders the Neovim colour-scheme file and its destination.
fn render_neovim(c: &Colors, home: &str) -> (rc: RenderedConfig)
    ensures
        rc@ == spec_render("neovim"@, c@, home@)->0,
{
    let dest_path = cat2(home, "/.config/nvim/colors/themey.vim");
    let lines = neovim_lines(c);
    let content = join_lines_nl(&lines);
    let rc = RenderedConfig { dest_path, content, reload: None };
    proof {
        lemma_target_names_distinct();
        assert(rc@ =~~= spec_render("neovim"@, c@, home@)->0);
    }
    rc
}

/// Renders the configuration artifact for one target identifier: the
/// destination path, the file content with the 19 palette values
/// substituted, and the target's reload action if it has one. Exactly the
/// eight supported identifiers render; any other is unsupported.
pub fn render(target: &str, colors: &Colors, home: &str) -> (r: Result<RenderedConfig, RenderError>)
    ensures
        (match spec_render(target@, colors@, home@) {
            Some(rv) => r matches Ok(rc) && rc@ == rv,
            None => r == Err::<RenderedConfig, RenderError>(RenderError::UnsupportedTarget),
        }),
{
    if str_eq(target, "kitty") {
        Ok(render_kitty(colors, home))
    } else if str_eq(target, "waybar") {
        Ok(render_waybar(colors, home))
    } else if str_eq(target, "hyprland") {
        Ok(render_hyprland(colors, home))
    } else if str_eq(target, "rofi") {
        Ok(render_rofi(colors, home))
    } else if str_eq(target, "dunst") {
        Ok(render_dunst(colors, home))
    } else if str_eq(target, "foot") {
        Ok(render_foot(colors, home))
    } else if str_eq(target, "gtk") {
        Ok(render_gtk(colors, home))
    } else if str_eq(target, "neovim") {
        Ok(render_neovim(colors, home))
    } else {
        Err(RenderError::UnsupportedTarget)
    }
}

/// Rendering is a pure function of target, palette and home directory:
/// equal inputs yield the same artifact, byte for byte.
pub proof fn lemma_render_deterministic(
    t1: Seq<char>,
    v1: ColorsView,
    h1: Seq<char>,
    t2: Seq<char>,
    v2: ColorsView,
    h2: Seq<char>,
)
    requires
        t1 == t2,
        v1 == v2,
        h1 == h2,
    ensures
        spec_render(t1, v1, h1) == spec_render(t2, v2, h2),
{
}

} // verus!
