use themey::apply::{
    metadata_path, plan_apply, plan_theme, resolve_metadata, resolve_palette, summarize,
    theme_dir, variant_path, ApplyError,
};
use themey::model::{ColorSet, Colors, Metadata, SpecialColors};
use themey::parser::ParseError;
use themey::render::{render, RenderError};
use themey::writer::{metadata_to_toml, palette_to_toml};

fn sample_palette() -> Colors {
    Colors {
        normal: ColorSet {
            black: "#2e3440".to_string(),
            red: "#bf616a".to_string(),
            green: "#a3be8c".to_string(),
            yellow: "#ebcb8b".to_string(),
            blue: "#81a1c1".to_string(),
            magenta: "#b48ead".to_string(),
            cyan: "#88c0d0".to_string(),
            white: "#e5e9f0".to_string(),
        },
        bright: ColorSet {
            black: "#4c566a".to_string(),
            red: "#bf616a".to_string(),
            green: "#a3be8c".to_string(),
            yellow: "#ebcb8b".to_string(),
            blue: "#81a1c1".to_string(),
            magenta: "#b48ead".to_string(),
            cyan: "#8fbcbb".to_string(),
            white: "#eceff4".to_string(),
        },
        special: SpecialColors {
            background: "#2e3440".to_string(),
            foreground: "#d8dee9".to_string(),
            cursor: "#d8dee9".to_string(),
        },
    }
}

fn nord_metadata(targets: Vec<&str>) -> Metadata {
    Metadata {
        name: "Nord".to_string(),
        author: "arctic".to_string(),
        files: vec!["dark.toml".to_string()],
        targets: targets.into_iter().map(|t| t.to_string()).collect(),
    }
}

#[test]
fn empty_targets_apply_writes_nothing() {
    let m = nord_metadata(vec![]);
    let colors = sample_palette();
    let plan = plan_apply(&m, &colors, "/home/u");
    assert_eq!(plan.writes.len(), 0);
    assert_eq!(plan.skipped.len(), 0);
    let s = summarize(&m, &plan);
    assert_eq!(s.written, 0);
    assert_eq!(s.skipped, 0);
}

#[test]
fn render_is_deterministic() {
    let colors = sample_palette();
    let a = render("waybar", &colors, "/home/u").expect("supported");
    let b = render("waybar", &colors, "/home/u").expect("supported");
    assert_eq!(a.dest_path, b.dest_path);
    assert_eq!(a.content, b.content);
}

#[test]
fn render_unknown_target_is_unsupported() {
    let colors = sample_palette();
    assert!(matches!(
        render("unknownapp", &colors, "/home/u"),
        Err(RenderError::UnsupportedTarget)
    ));
}

#[test]
fn render_kitty_content_is_exact() {
    let colors = sample_palette();
    let rc = render("kitty", &colors, "/home/u").expect("supported");
    assert_eq!(rc.dest_path, "/home/u/.config/kitty/themey.conf");
    let expected = "foreground #d8dee9\n\
        background #2e3440\n\
        cursor #d8dee9\n\
        color0 #2e3440\n\
        color1 #bf616a\n\
        color2 #a3be8c\n\
        color3 #ebcb8b\n\
        color4 #81a1c1\n\
        color5 #b48ead\n\
        color6 #88c0d0\n\
        color7 #e5e9f0\n\
        color8 #4c566a\n\
        color9 #bf616a\n\
        color10 #a3be8c\n\
        color11 #ebcb8b\n\
        color12 #81a1c1\n\
        color13 #b48ead\n\
        color14 #8fbcbb\n\
        color15 #eceff4\n";
    assert_eq!(rc.content, expected);
    let reload = rc.reload.expect("kitty reloads");
    assert_eq!(reload.program, "killall");
    assert_eq!(reload.args, vec!["-SIGUSR1".to_string(), "kitty".to_string()]);
    assert_eq!(reload.label, "kitty");
}

#[test]
fn render_foot_strips_the_hash() {
    let colors = sample_palette();
    let rc = render("foot", &colors, "/home/u").expect("supported");
    assert!(rc.content.contains("background=2e3440\n"));
    assert!(rc.content.contains("regular1=bf616a\n"));
    assert!(rc.reload.is_none());
}

#[test]
fn unknown_target_is_skipped_not_fatal() {
    let m = nord_metadata(vec!["kitty", "foo", "rofi"]);
    let colors = sample_palette();
    let plan = plan_apply(&m, &colors, "/home/u");
    assert_eq!(plan.writes.len(), 2);
    assert_eq!(plan.skipped, vec!["foo".to_string()]);
    assert_eq!(plan.writes[0].dest_path, "/home/u/.config/kitty/themey.conf");
    assert_eq!(plan.writes[1].dest_path, "/home/u/.config/rofi/themey.rasi");
}

#[test]
fn missing_palette_aborts_with_palette_unreadable() {
    let m = nord_metadata(vec!["kitty", "rofi"]);
    let r = plan_theme(&m, None, "/home/u");
    assert_eq!(
        r.err(),
        Some(ApplyError::PaletteUnreadable(ParseError::NotFound))
    );
}

#[test]
fn malformed_palette_aborts_with_palette_unreadable() {
    let m = nord_metadata(vec!["kitty"]);
    let r = plan_theme(&m, Some("not a palette"), "/home/u");
    assert_eq!(
        r.err(),
        Some(ApplyError::PaletteUnreadable(ParseError::MalformedSchema))
    );
}

#[test]
fn missing_manifest_aborts_with_metadata_unreadable() {
    let r = resolve_metadata(None);
    assert_eq!(
        r.err(),
        Some(ApplyError::MetadataUnreadable(ParseError::NotFound))
    );
}

#[test]
fn malformed_manifest_aborts_with_metadata_unreadable() {
    let r = resolve_metadata(Some("[theme]\nname = \"x\"\n"));
    assert_eq!(
        r.err(),
        Some(ApplyError::MetadataUnreadable(ParseError::MalformedSchema))
    );
}

#[test]
fn theme_paths_are_fixed() {
    let base = theme_dir("/home/u", "nord");
    assert_eq!(base, "/home/u/.config/themey/themes/nord");
    assert_eq!(metadata_path(&base), "/home/u/.config/themey/themes/nord/metadata.toml");
    let m = nord_metadata(vec![]);
    assert_eq!(
        variant_path(&base, &m).expect("has a variant"),
        "/home/u/.config/themey/themes/nord/dark.toml"
    );
}

#[test]
fn manifest_without_variant_files_is_unusable() {
    let mut m = nord_metadata(vec![]);
    m.files.clear();
    let r = variant_path("/base", &m);
    assert_eq!(
        r.err(),
        Some(ApplyError::MetadataUnreadable(ParseError::MalformedSchema))
    );
}

#[test]
fn nord_end_to_end() {
    let m_in = nord_metadata(vec!["kitty", "rofi", "unknownapp"]);
    let manifest_text = metadata_to_toml(&m_in);
    let palette_text = palette_to_toml(&sample_palette());

    let m = resolve_metadata(Some(&manifest_text)).expect("manifest parses");
    assert_eq!(m.name, "Nord");
    assert_eq!(m.author, "arctic");

    let base = theme_dir("/home/u", "nord");
    let vp = variant_path(&base, &m).expect("has a variant");
    assert_eq!(vp, "/home/u/.config/themey/themes/nord/dark.toml");

    let plan = plan_theme(&m, Some(&palette_text), "/home/u").expect("palette parses");
    assert_eq!(plan.writes.len(), 2);
    assert_eq!(plan.skipped, vec!["unknownapp".to_string()]);
    assert_eq!(plan.writes[0].dest_path, "/home/u/.config/kitty/themey.conf");
    assert!(plan.writes[0].content.contains("color0 #2e3440\n"));
    assert_eq!(plan.writes[1].dest_path, "/home/u/.config/rofi/themey.rasi");
    assert!(plan.writes[1].content.contains("    color0: #2e3440;\n"));

    let s = summarize(&m, &plan);
    assert_eq!(s.name, "Nord");
    assert_eq!(s.author, "arctic");
    assert_eq!(s.written, 2);
    assert_eq!(s.skipped, 1);
}

#[test]
fn resolve_palette_reads_canonical_text() {
    let text = palette_to_toml(&sample_palette());
    let c = resolve_palette(Some(&text)).expect("parses");
    assert_eq!(c.special.foreground, "#d8dee9");
}
