use themey::model::{ColorSet, Colors, SpecialColors};
use themey::parser::{parse_colors, parse_metadata, ParseError};
use themey::writer::{metadata_to_toml, palette_to_toml};
use themey::model::Metadata;

fn sample_palette() -> Colors {
    Colors {
        normal: ColorSet {
            black: "#2e3440".to_string(),
            red: "#bf616a".to_string(),
            green: "#a3be8c".to_string(),
            yellow: "#ebcb8b".to_string(),
            blue: "#81a1c1".to_string(),
            magenta: "#b48ead".to_string(),
            cyan: "#88c0d0".to_string(),
            white: "#e5e9f0".to_string(),
        },
        bright: ColorSet {
            black: "#4c566a".to_string(),
            red: "#bf616a".to_string(),
            green: "#a3be8c".to_string(),
            yellow: "#ebcb8b".to_string(),
            blue: "#81a1c1".to_string(),
            magenta: "#b48ead".to_string(),
            cyan: "#8fbcbb".to_string(),
            white: "#eceff4".to_string(),
        },
        special: SpecialColors {
            background: "#2e3440".to_string(),
            foreground: "#d8dee9".to_string(),
            cursor: "#d8dee9".to_string(),
        },
    }
}

#[test]
fn palette_file_round_trips() {
    let original = sample_palette();
    let text = palette_to_toml(&original);
    let parsed = parse_colors(&text).expect("canonical palette text parses");
    assert_eq!(parsed.normal.black, original.normal.black);
    assert_eq!(parsed.normal.red, original.normal.red);
    assert_eq!(parsed.normal.green, original.normal.green);
    assert_eq!(parsed.normal.yellow, original.normal.yellow);
    assert_eq!(parsed.normal.blue, original.normal.blue);
    assert_eq!(parsed.normal.magenta, original.normal.magenta);
    assert_eq!(parsed.normal.cyan, original.normal.cyan);
    assert_eq!(parsed.normal.white, original.normal.white);
    assert_eq!(parsed.bright.black, original.bright.black);
    assert_eq!(parsed.bright.red, original.bright.red);
    assert_eq!(parsed.bright.green, original.bright.green);
    assert_eq!(parsed.bright.yellow, original.bright.yellow);
    assert_eq!(parsed.bright.blue, original.bright.blue);
    assert_eq!(parsed.bright.magenta, original.bright.magenta);
    assert_eq!(parsed.bright.cyan, original.bright.cyan);
    assert_eq!(parsed.bright.white, original.bright.white);
    assert_eq!(parsed.special.background, original.special.background);
    assert_eq!(parsed.special.foreground, original.special.foreground);
    assert_eq!(parsed.special.cursor, original.special.cursor);
}

#[test]
fn palette_file_text_is_canonical() {
    let text = palette_to_toml(&sample_palette());
    let expected = "[colors.normal]\n\
        black = \"#2e3440\"\n\
        red = \"#bf616a\"\n\
        green = \"#a3be8c\"\n\
        yellow = \"#ebcb8b\"\n\
        blue = \"#81a1c1\"\n\
        magenta = \"#b48ead\"\n\
        cyan = \"#88c0d0\"\n\
        white = \"#e5e9f0\"\n\
        [colors.bright]\n\
        black = \"#4c566a\"\n\
        red = \"#bf616a\"\n\
        green = \"#a3be8c\"\n\
        yellow = \"#ebcb8b\"\n\
        blue = \"#81a1c1\"\n\
        magenta = \"#b48ead\"\n\
        cyan = \"#8fbcbb\"\n\
        white = \"#eceff4\"\n\
        [colors.special]\n\
        background = \"#2e3440\"\n\
        foreground = \"#d8dee9\"\n\
        cursor = \"#d8dee9\"\n";
    assert_eq!(text, expected);
}

#[test]
fn palette_missing_key_is_malformed() {
    let original = sample_palette();
    let text = palette_to_toml(&original);
    let without_cursor = text.replace("cursor = \"#d8dee9\"\n", "");
    assert!(matches!(parse_colors(&without_cursor), Err(ParseError::MalformedSchema)));
}

#[test]
fn palette_empty_text_is_malformed() {
    assert!(matches!(parse_colors(""), Err(ParseError::MalformedSchema)));
}

#[test]
fn palette_value_outside_a_section_is_ignored() {
    let original = sample_palette();
    let mut text = String::from("black = \"#111111\"\n");
    text.push_str(&palette_to_toml(&original));
    let parsed = parse_colors(&text).expect("parses");
    assert_eq!(parsed.normal.black, "#2e3440");
}

#[test]
fn palette_later_assignment_wins() {
    let original = sample_palette();
    let mut text = palette_to_toml(&original);
    text.push_str("[colors.normal]\nblack = \"#101010\"\n");
    let parsed = parse_colors(&text).expect("parses");
    assert_eq!(parsed.normal.black, "#101010");
    assert_eq!(parsed.normal.red, "#bf616a");
}

#[test]
fn metadata_round_trips_through_canonical_text() {
    let m = Metadata {
        name: "Nord".to_string(),
        author: "arctic".to_string(),
        files: vec!["dark.toml".to_string(), "light.toml".to_string()],
        targets: vec!["kitty".to_string(), "rofi".to_string()],
    };
    let text = metadata_to_toml(&m);
    let expected = "[theme]\n\
        name = \"Nord\"\n\
        author = \"arctic\"\n\
        files = [\"dark.toml\", \"light.toml\"]\n\
        targets = [\"kitty\", \"rofi\"]\n";
    assert_eq!(text, expected);
    let parsed = parse_metadata(&text).expect("canonical manifest parses");
    assert_eq!(parsed.name, "Nord");
    assert_eq!(parsed.author, "arctic");
    assert_eq!(parsed.files, vec!["dark.toml".to_string(), "light.toml".to_string()]);
    assert_eq!(parsed.targets, vec!["kitty".to_string(), "rofi".to_string()]);
}

#[test]
fn metadata_empty_lists_parse() {
    let text = "[theme]\nname = \"x\"\nauthor = \"y\"\nfiles = []\ntargets = []\n";
    let parsed = parse_metadata(text).expect("parses");
    assert_eq!(parsed.files, Vec::<String>::new());
    assert_eq!(parsed.targets, Vec::<String>::new());
}

#[test]
fn metadata_unknown_keys_are_skipped() {
    let text = "[theme]\nname = \"x\"\nversion = \"1.0.0\"\nauthor = \"y\"\n\
        description = \"a theme\"\nfiles = [\"a.toml\"]\ntargets = [\"kitty\"]\n";
    let parsed = parse_metadata(text).expect("parses");
    assert_eq!(parsed.name, "x");
    assert_eq!(parsed.author, "y");
}

#[test]
fn metadata_missing_required_key_is_malformed() {
    let text = "[theme]\nname = \"x\"\nfiles = [\"a.toml\"]\ntargets = [\"kitty\"]\n";
    assert!(matches!(parse_metadata(text), Err(ParseError::MalformedSchema)));
}

#[test]
fn metadata_keys_outside_theme_table_do_not_count() {
    let text = "name = \"x\"\nauthor = \"y\"\nfiles = []\ntargets = []\n";
    assert!(matches!(parse_metadata(text), Err(ParseError::MalformedSchema)));
}

#[test]
fn metadata_other_table_closes_theme_table() {
    let text = "[theme]\nname = \"x\"\nauthor = \"y\"\nfiles = []\n[other]\ntargets = []\n";
    assert!(matches!(parse_metadata(text), Err(ParseError::MalformedSchema)));
}

#[test]
fn metadata_mistyped_list_is_malformed() {
    let text = "[theme]\nname = \"x\"\nauthor = \"y\"\nfiles = \"a.toml\"\ntargets = []\n";
    assert!(matches!(parse_metadata(text), Err(ParseError::MalformedSchema)));
}
