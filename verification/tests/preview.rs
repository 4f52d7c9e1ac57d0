use themey::colors::{hex_to_rgb_tuple, preview_lines};
use themey::model::{ColorSet, Colors, SpecialColors};

#[test]
fn hex_to_rgb_reads_well_formed_values() {
    assert_eq!(hex_to_rgb_tuple("#ff8000"), (255, 128, 0));
    assert_eq!(hex_to_rgb_tuple("#000000"), (0, 0, 0));
    assert_eq!(hex_to_rgb_tuple("#ffffff"), (255, 255, 255));
    assert_eq!(hex_to_rgb_tuple("#2e3440"), (46, 52, 64));
}

#[test]
fn hex_to_rgb_accepts_uppercase_digits() {
    assert_eq!(hex_to_rgb_tuple("#FF8000"), (255, 128, 0));
    assert_eq!(hex_to_rgb_tuple("#AbCdEf"), (171, 205, 239));
}

#[test]
fn hex_to_rgb_defaults_invalid_channels_to_zero() {
    assert_eq!(hex_to_rgb_tuple("#zz0000"), (0, 0, 0));
    assert_eq!(hex_to_rgb_tuple("#00zzff"), (0, 0, 255));
    assert_eq!(hex_to_rgb_tuple("#ff80zz"), (255, 128, 0));
    assert_eq!(hex_to_rgb_tuple("#z00000"), (0, 0, 0));
}

#[test]
fn hex_to_rgb_works_without_a_hash() {
    assert_eq!(hex_to_rgb_tuple("ff8000"), (255, 128, 0));
    assert_eq!(hex_to_rgb_tuple("##ff8000"), (255, 128, 0));
}

#[test]
fn hex_to_rgb_short_values_read_as_black() {
    assert_eq!(hex_to_rgb_tuple("#ff80"), (0, 0, 0));
    assert_eq!(hex_to_rgb_tuple(""), (0, 0, 0));
    assert_eq!(hex_to_rgb_tuple("#"), (0, 0, 0));
}

fn flat_palette() -> Colors {
    let row = ColorSet {
        black: "#000000".to_string(),
        red: "#000000".to_string(),
        green: "#000000".to_string(),
        yellow: "#000000".to_string(),
        blue: "#000000".to_string(),
        magenta: "#000000".to_string(),
        cyan: "#000000".to_string(),
        white: "#000000".to_string(),
    };
    let bright = ColorSet { black: "#ff8000".to_string(), ..row.clone() };
    Colors {
        normal: row,
        bright,
        special: SpecialColors {
            background: "#000000".to_string(),
            foreground: "#ffffff".to_string(),
            cursor: "#ffffff".to_string(),
        },
    }
}

#[test]
fn preview_is_two_blocks_of_three_rows() {
    let lines = preview_lines(&flat_palette());
    assert_eq!(lines.len(), 6);
    assert_eq!(lines[0], lines[1]);
    assert_eq!(lines[0], lines[2]);
    assert_eq!(lines[3], lines[4]);
    assert_eq!(lines[3], lines[5]);

    let black_pane = "\u{1b}[48;2;0;0;0m        ";
    let mut normal_row = String::new();
    for _ in 0..8 {
        normal_row.push_str(black_pane);
    }
    normal_row.push_str("\u{1b}[0m");
    assert_eq!(lines[0], normal_row);

    let mut bright_row = String::from("\u{1b}[48;2;255;128;0m        ");
    for _ in 0..7 {
        bright_row.push_str(black_pane);
    }
    bright_row.push_str("\u{1b}[0m");
    assert_eq!(lines[3], bright_row);
}
