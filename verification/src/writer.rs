//! Writing the two file schemas back out, in the canonical shape the parser
//! reads: one table header per line and one `key = "value"` pair per line,
//! every line ended by a newline.

use vstd::prelude::*;

use crate::model::{colors_wf, is_hex_color, is_hex_digit_char, Colors, ColorsView, Metadata,
    MetadataView};
use crate::parser::{kv_line, kv_value, pal_fold, pal_step, spec_parse_palette, Section};
use crate::text::{join_lines_nl, lemma_split_join_nl, line_free, spec_join_nl, spec_split_lines};

verus! {

/// The 22 lines of the canonical palette file for a palette.
pub open spec fn spec_palette_lines(v: ColorsView) -> Seq<Seq<char>> {
    seq![
        "[colors.normal]"@,
        "black = \""@ + v.normal.black + "\""@,
        "red = \""@ + v.normal.red + "\""@,
        "green = \""@ + v.normal.green + "\""@,
        "yellow = \""@ + v.normal.yellow + "\""@,
        "blue = \""@ + v.normal.blue + "\""@,
        "magenta = \""@ + v.normal.magenta + "\""@,
        "cyan = \""@ + v.normal.cyan + "\""@,
        "white = \""@ + v.normal.white + "\""@,
        "[colors.bright]"@,
        "black = \""@ + v.bright.black + "\""@,
        "red = \""@ + v.bright.red + "\""@,
        "green = \""@ + v.bright.green + "\""@,
        "yellow = \""@ + v.bright.yellow + "\""@,
        "blue = \""@ + v.bright.blue + "\""@,
        "magenta = \""@ + v.bright.magenta + "\""@,
        "cyan = \""@ + v.bright.cyan + "\""@,
        "white = \""@ + v.bright.white + "\""@,
        "[colors.special]"@,
        "background = \""@ + v.special.background + "\""@,
        "foreground = \""@ + v.special.foreground + "\""@,
        "cursor = \""@ + v.special.cursor + "\""@,
    ]
}

/// The canonical text of a palette file.
pub open spec fn spec_palette_text(v: ColorsView) -> Seq<char> {
    spec_join_nl(spec_palette_lines(v))
}

/// One `key = "value"` line: the given prefix, the value, a closing quote.
fn kv_string(prefix: &str, value: &str) -> (r: String)
    ensures
        r@ == prefix@ + value@ + "\""@,
{
    let mut s = prefix.to_owned();
    s.append(value);
    s.append("\"");
    s
}

/// The lines of the canonical palette file.
pub fn palette_lines(c: &Colors) -> (lines: Vec<String>)
    ensures
        lines@.map_values(|l: String| l@) == spec_palette_lines(c@),
{
    let mut lines: Vec<String> = Vec::new();
    lines.push("[colors.normal]".to_owned());
    lines.push(kv_string("black = \"", c.normal.black.as_str()));
    lines.push(kv_string("red = \"", c.normal.red.as_str()));
    lines.push(kv_string("green = \"", c.normal.green.as_str()));
    lines.push(kv_string("yellow = \"", c.normal.yellow.as_str()));
    lines.push(kv_string("blue = \"", c.normal.blue.as_str()));
    lines.push(kv_string("magenta = \"", c.normal.magenta.as_str()));
    lines.push(kv_string("cyan = \"", c.normal.cyan.as_str()));
    lines.push(kv_string("white = \"", c.normal.white.as_str()));
    lines.push("[colors.bright]".to_owned());
    lines.push(kv_string("black = \"", c.bright.black.as_str()));
    lines.push(kv_string("red = \"", c.bright.red.as_str()));
    lines.push(kv_string("green = \"", c.bright.green.as_str()));
    lines.push(kv_string("yellow = \"", c.bright.yellow.as_str()));
    lines.push(kv_string("blue = \"", c.bright.blue.as_str()));
    lines.push(kv_string("magenta = \"", c.bright.magenta.as_str()));
    lines.push(kv_string("cyan = \"", c.bright.cyan.as_str()));
    lines.push(kv_string("white = \"", c.bright.white.as_str()));
    lines.push("[colors.special]".to_owned());
    lines.push(kv_string("background = \"", c.special.background.as_str()));
    lines.push(kv_string("foreground = \"", c.special.foreground.as_str()));
    lines.push(kv_string("cursor = \"", c.special.cursor.as_str()));
    proof {
        assert(lines@.map_values(|l: String| l@) =~= spec_palette_lines(c@));
    }
    lines
}

/// The canonical text of the palette file for a palette.
pub fn palette_to_toml(c: &Colors) -> (r: String)
    ensures
        r@ == spec_palette_text(c@),
{
    let lines = palette_lines(c);
    join_lines_nl(&lines)
}

/// The elements of an inline list after the first, each introduced by `, "`
/// and closed by a quote.
pub open spec fn spec_qlist_tail(es: Seq<Seq<char>>) -> Seq<char>
    decreases es.len(),
{
    if es.len() == 0 {
        Seq::<char>::empty()
    } else {
        ", \""@ + es[0] + "\""@ + spec_qlist_tail(es.drop_first())
    }
}

/// An inline list of quoted strings: `[]`, or `["a", "b"]`.
pub open spec fn spec_qlist_text(es: Seq<Seq<char>>) -> Seq<char> {
    if es.len() == 0 {
        "[]"@
    } else {
        "[\""@ + es[0] + "\""@ + spec_qlist_tail(es.drop_first()) + "]"@
    }
}

/// The 5 lines of the canonical manifest file for a theme's metadata.
pub open spec fn spec_metadata_lines(v: MetadataView) -> Seq<Seq<char>> {
    seq![
        "[theme]"@,
        "name = \""@ + v.name + "\""@,
        "author = \""@ + v.author + "\""@,
        "files = "@ + spec_qlist_text(v.files),
        "targets = "@ + spec_qlist_text(v.targets),
    ]
}

/// The canonical text of a manifest file.
pub open spec fn spec_metadata_text(v: MetadataView) -> Seq<char> {
    spec_join_nl(spec_metadata_lines(v))
}

/// Writes an inline list of quoted strings.
fn qlist_string(items: &Vec<String>) -> (r: String)
    ensures
        r@ == spec_qlist_text(items@.map_values(|e: String| e@)),
{
    let ghost es = items@.map_values(|e: String| e@);
    if items.len() == 0 {
        let r = "[]".to_owned();
        return r;
    }
    let mut s = "[\"".to_owned();
    s.append(items[0].as_str());
    s.append("\"");
    let mut i: usize = 1;
    proof {
        assert(spec_qlist_text(es) =~= s@ + spec_qlist_tail(es.skip(1)) + "]"@);
    }
    while i < items.len()
        invariant
            1 <= i <= items.len(),
            es == items@.map_values(|e: String| e@),
            es.len() == items@.len(),
            spec_qlist_text(es) == s@ + spec_qlist_tail(es.skip(i as int)) + "]"@,
        decreases items.len() - i,
    {
        proof {
            assert(es.skip(i as int).drop_first() =~= es.skip(i as int + 1));
            assert(es.skip(i as int)[0] == es[i as int]);
        }
        s.append(", \"");
        s.append(items[i].as_str());
        s.append("\"");
        i += 1;
        proof {
            assert(spec_qlist_text(es) =~= s@ + spec_qlist_tail(es.skip(i as int)) + "]"@);
        }
    }
    proof {
        assert(es.skip(i as int) =~= Seq::<Seq<char>>::empty());
        assert(s@ + spec_qlist_tail(es.skip(i as int)) =~= s@);
    }
    s.append("]");
    s
}

/// The lines of the canonical manifest file.
pub fn metadata_lines(m: &Metadata) -> (lines: Vec<String>)
    ensures
        lines@.map_values(|l: String| l@) == spec_metadata_lines(m@),
{
    let mut lines: Vec<String> = Vec::new();
    lines.push("[theme]".to_owned());
    lines.push(kv_string("name = \"", m.name.as_str()));
    lines.push(kv_string("author = \"", m.author.as_str()));
    let mut fl = "files = ".to_owned();
    fl.append(qlist_string(&m.files).as_str());
    lines.push(fl);
    let mut tl = "targets = ".to_owned();
    tl.append(qlist_string(&m.targets).as_str());
    lines.push(tl);
    proof {
        assert(lines@.map_values(|l: String| l@) =~= spec_metadata_lines(m@));
    }
    lines
}

/// The canonical text of the manifest file for a theme's metadata.
pub fn metadata_to_toml(m: &Metadata) -> (r: String)
    ensures
        r@ == spec_metadata_text(m@),
{
    let lines = metadata_lines(m);
    join_lines_nl(&lines)
}

/// The `key = "` prefix of the colour key at a slot of an eight-colour row.
spec fn row_prefix(idx: int) -> Seq<char> {
    if idx == 0 {
        "black = \""@
    } else if idx == 1 {
        "red = \""@
    } else if idx == 2 {
        "green = \""@
    } else if idx == 3 {
        "yellow = \""@
    } else if idx == 4 {
        "blue = \""@
    } else if idx == 5 {
        "magenta = \""@
    } else if idx == 6 {
        "cyan = \""@
    } else {
        "white = \""@
    }
}

/// The `key = "` prefix of a special colour key.
spec fn special_prefix(idx: int) -> Seq<char> {
    if idx == 0 {
        "background = \""@
    } else if idx == 1 {
        "foreground = \""@
    } else {
        "cursor = \""@
    }
}

/// A well-formed colour value has no newline.
proof fn lemma_hex_line_free(s: Seq<char>)
    requires
        is_hex_color(s),
    ensures
        line_free(s),
{
    assert forall|i: int| 0 <= i < s.len() implies s[i] != '\n' by {
        if i != 0 {
            assert(is_hex_digit_char(s[i]));
        }
    }
}

/// A line built from a prefix, a value and a closing quote assigns that
/// value to that prefix's key.
proof fn lemma_kv_shape(p: Seq<char>, v: Seq<char>)
    ensures
        kv_line(p, p + v + "\""@),
        kv_value(p, p + v + "\""@) == v,
        (p + v + "\""@).len() == p.len() + v.len() + 1,
{
    reveal_strlit("\"");
    let l = p + v + "\""@;
    assert(l.take(p.len() as int) =~= p);
    assert(l[l.len() - 1] == '"');
    assert(kv_value(p, l) =~= v);
}

/// A line built with one prefix does not match a prefix that differs from
/// it at some shared position.
proof fn lemma_kv_mismatch(p: Seq<char>, v: Seq<char>, q: Seq<char>, j: int)
    requires
        0 <= j < p.len(),
        j < q.len(),
        p[j] != q[j],
    ensures
        !kv_line(q, p + v + "\""@),
{
    let l = p + v + "\""@;
    assert(l[j] == p[j]);
    if l.len() > q.len() && l.take(q.len() as int) == q {
        assert(l.take(q.len() as int)[j] == l[j]);
        assert(false);
    }
}

/// A key line made of newline-free parts is newline-free.
proof fn lemma_kv_line_free(p: Seq<char>, v: Seq<char>)
    requires
        line_free(p),
        line_free(v),
    ensures
        line_free(p + v + "\""@),
{
    reveal_strlit("\"");
    let l = p + v + "\""@;
    assert forall|i: int| 0 <= i < l.len() implies l[i] != '\n' by {
        if i < p.len() {
            assert(l[i] == p[i]);
        } else if i < p.len() + v.len() {
            assert(l[i] == v[i - p.len()]);
        } else {
            assert(l[i] == '"');
        }
    }
}

/// A key line does not equal a table header: headers open with a bracket,
/// key prefixes with a letter.
proof fn lemma_kv_not_header(p: Seq<char>, v: Seq<char>, h: Seq<char>)
    requires
        p.len() > 0,
        h.len() > 0,
        p[0] != h[0],
    ensures
        p + v + "\""@ != h,
{
    let l = p + v + "\""@;
    assert(l[0] == p[0]);
    if l == h {
        assert(l[0] == h[0]);
        assert(false);
    }
}

/// Inside a normal or bright table, the canonical line of a row key
/// assigns exactly that key's slot.
proof fn lemma_row_line(sec: Section, m: Map<int, Seq<char>>, base: int, idx: int, val: Seq<char>)
    requires
        sec == Section::Normal || sec == Section::Bright,
        sec == Section::Normal ==> base == 0,
        sec == Section::Bright ==> base == 8,
        0 <= idx < 8,
        is_hex_color(val),
    ensures
        pal_step(sec, m, row_prefix(idx) + val + "\""@) == (sec, m.insert(base + idx, val)),
{
    reveal_strlit("[colors.normal]");
    reveal_strlit("[colors.bright]");
    reveal_strlit("[colors.special]");
    reveal_strlit("black = \"");
    reveal_strlit("red = \"");
    reveal_strlit("green = \"");
    reveal_strlit("yellow = \"");
    reveal_strlit("blue = \"");
    reveal_strlit("magenta = \"");
    reveal_strlit("cyan = \"");
    reveal_strlit("white = \"");
    let p = row_prefix(idx);
    lemma_kv_shape(p, val);
    lemma_kv_not_header(p, val, "[colors.normal]"@);
    lemma_kv_not_header(p, val, "[colors.bright]"@);
    lemma_kv_not_header(p, val, "[colors.special]"@);
    if idx == 1 {
        lemma_kv_mismatch(p, val, row_prefix(0), 0);
    } else if idx == 2 {
        lemma_kv_mismatch(p, val, row_prefix(0), 0);
        lemma_kv_mismatch(p, val, row_prefix(1), 0);
    } else if idx == 3 {
        lemma_kv_mismatch(p, val, row_prefix(0), 0);
        lemma_kv_mismatch(p, val, row_prefix(1), 0);
        lemma_kv_mismatch(p, val, row_prefix(2), 0);
    } else if idx == 4 {
        lemma_kv_mismatch(p, val, row_prefix(0), 2);
        lemma_kv_mismatch(p, val, row_prefix(1), 0);
        lemma_kv_mismatch(p, val, row_prefix(2), 0);
        lemma_kv_mismatch(p, val, row_prefix(3), 0);
    } else if idx == 5 {
        lemma_kv_mismatch(p, val, row_prefix(0), 0);
        lemma_kv_mismatch(p, val, row_prefix(1), 0);
        lemma_kv_mismatch(p, val, row_prefix(2), 0);
        lemma_kv_mismatch(p, val, row_prefix(3), 0);
        lemma_kv_mismatch(p, val, row_prefix(4), 0);
    } else if idx == 6 {
        lemma_kv_mismatch(p, val, row_prefix(0), 0);
        lemma_kv_mismatch(p, val, row_prefix(1), 0);
        lemma_kv_mismatch(p, val, row_prefix(2), 0);
        lemma_kv_mismatch(p, val, row_prefix(3), 0);
        lemma_kv_mismatch(p, val, row_prefix(4), 0);
        lemma_kv_mismatch(p, val, row_prefix(5), 0);
    } else if idx == 7 {
        lemma_kv_mismatch(p, val, row_prefix(0), 0);
        lemma_kv_mismatch(p, val, row_prefix(1), 0);
        lemma_kv_mismatch(p, val, row_prefix(2), 0);
        lemma_kv_mismatch(p, val, row_prefix(3), 0);
        lemma_kv_mismatch(p, val, row_prefix(4), 0);
        lemma_kv_mismatch(p, val, row_prefix(5), 0);
        lemma_kv_mismatch(p, val, row_prefix(6), 0);
    }
}

/// Inside the special table, the canonical line of a special key assigns
/// exactly that key's slot.
proof fn lemma_special_line(m: Map<int, Seq<char>>, idx: int, val: Seq<char>)
    requires
        0 <= idx < 3,
        is_hex_color(val),
    ensures
        pal_step(Section::Special, m, special_prefix(idx) + val + "\""@) == (
            Section::Special,
            m.insert(16 + idx, val),
        ),
{
    reveal_strlit("[colors.normal]");
    reveal_strlit("[colors.bright]");
    reveal_strlit("[colors.special]");
    reveal_strlit("background = \"");
    reveal_strlit("foreground = \"");
    reveal_strlit("cursor = \"");
    let p = special_prefix(idx);
    lemma_kv_shape(p, val);
    lemma_kv_not_header(p, val, "[colors.normal]"@);
    lemma_kv_not_header(p, val, "[colors.bright]"@);
    lemma_kv_not_header(p, val, "[colors.special]"@);
    if idx == 1 {
        lemma_kv_mismatch(p, val, special_prefix(0), 0);
    } else if idx == 2 {
        lemma_kv_mismatch(p, val, special_prefix(0), 1);
        lemma_kv_mismatch(p, val, special_prefix(1), 0);
    }
}

/// Every line of the canonical palette file is newline-free.
proof fn lemma_palette_lines_free(v: ColorsView)
    requires
        colors_wf(v),
    ensures
        forall|i: int|
            0 <= i < spec_palette_lines(v).len() ==> line_free(#[trigger] spec_palette_lines(v)[i]),
{
    reveal_strlit("[colors.normal]");
    reveal_strlit("[colors.bright]");
    reveal_strlit("[colors.special]");
    reveal_strlit("black = \"");
    reveal_strlit("red = \"");
    reveal_strlit("green = \"");
    reveal_strlit("yellow = \"");
    reveal_strlit("blue = \"");
    reveal_strlit("magenta = \"");
    reveal_strlit("cyan = \"");
    reveal_strlit("white = \"");
    reveal_strlit("background = \"");
    reveal_strlit("foreground = \"");
    reveal_strlit("cursor = \"");
    let ls = spec_palette_lines(v);
    lemma_hex_line_free(v.normal.black);
    lemma_hex_line_free(v.normal.red);
    lemma_hex_line_free(v.normal.green);
    lemma_hex_line_free(v.normal.yellow);
    lemma_hex_line_free(v.normal.blue);
    lemma_hex_line_free(v.normal.magenta);
    lemma_hex_line_free(v.normal.cyan);
    lemma_hex_line_free(v.normal.white);
    lemma_hex_line_free(v.bright.black);
    lemma_hex_line_free(v.bright.red);
    lemma_hex_line_free(v.bright.green);
    lemma_hex_line_free(v.bright.yellow);
    lemma_hex_line_free(v.bright.blue);
    lemma_hex_line_free(v.bright.magenta);
    lemma_hex_line_free(v.bright.cyan);
    lemma_hex_line_free(v.bright.white);
    lemma_hex_line_free(v.special.background);
    lemma_hex_line_free(v.special.foreground);
    lemma_hex_line_free(v.special.cursor);
    assert forall|i: int| 0 <= i < ls.len() implies line_free(#[trigger] ls[i]) by {
        if i == 0 || i == 9 || i == 18 {
        } else if i == 1 {
            lemma_kv_line_free(row_prefix(0), v.normal.black);
        } else if i == 2 {
            lemma_kv_line_free(row_prefix(1), v.normal.red);
        } else if i == 3 {
            lemma_kv_line_free(row_prefix(2), v.normal.green);
        } else if i == 4 {
            lemma_kv_line_free(row_prefix(3), v.normal.yellow);
        } else if i == 5 {
            lemma_kv_line_free(row_prefix(4), v.normal.blue);
        } else if i == 6 {
            lemma_kv_line_free(row_prefix(5), v.normal.magenta);
        } else if i == 7 {
            lemma_kv_line_free(row_prefix(6), v.normal.cyan);
        } else if i == 8 {
            lemma_kv_line_free(row_prefix(7), v.normal.white);
        } else if i == 10 {
            lemma_kv_line_free(row_prefix(0), v.bright.black);
        } else if i == 11 {
            lemma_kv_line_free(row_prefix(1), v.bright.red);
        } else if i == 12 {
            lemma_kv_line_free(row_prefix(2), v.bright.green);
        } else if i == 13 {
            lemma_kv_line_free(row_prefix(3), v.bright.yellow);
        } else if i == 14 {
            lemma_kv_line_free(row_prefix(4), v.bright.blue);
        } else if i == 15 {
            lemma_kv_line_free(row_prefix(5), v.bright.magenta);
        } else if i == 16 {
            lemma_kv_line_free(row_prefix(6), v.bright.cyan);
        } else if i == 17 {
            lemma_kv_line_free(row_prefix(7), v.bright.white);
        } else if i == 19 {
            lemma_kv_line_free(special_prefix(0), v.special.background);
        } else if i == 20 {
            lemma_kv_line_free(special_prefix(1), v.special.foreground);
        } else {
            lemma_kv_line_free(special_prefix(2), v.special.cursor);
        }
    }
}

/// Writing a palette to the palette file format and parsing it back yields
/// the same 19 colour values.
pub proof fn lemma_palette_round_trip(v: ColorsView)
    requires
        colors_wf(v),
    ensures
        spec_parse_palette(spec_palette_text(v)) == Some(v),
{
    reveal_strlit("[colors.normal]");
    reveal_strlit("[colors.bright]");
    reveal_strlit("[colors.special]");
    reveal_strlit("background = \"");
    reveal_strlit("foreground = \"");
    reveal_strlit("cursor = \"");
    let ls = spec_palette_lines(v);
    lemma_palette_lines_free(v);
    lemma_split_join_nl(ls);
    let full = ls + seq![Seq::<char>::empty()];
    assert(spec_split_lines(spec_palette_text(v)) == full);
    let st0 = pal_fold(full.take(0));
    assert(full.take(0) =~= Seq::<Seq<char>>::empty());
    let st1 = pal_fold(full.take(1));
    assert(full.take(1).drop_last() =~= full.take(0));
    assert(full.take(1).last() == ls[0]);
    assert(st1.0 == Section::Normal && st1.1 == st0.1);
    let st2 = pal_fold(full.take(2));
    assert(full.take(2).drop_last() =~= full.take(1));
    assert(full.take(2).last() == ls[1]);
    lemma_row_line(st1.0, st1.1, 0, 0, v.normal.black);
    assert(st2 == (Section::Normal, st1.1.insert(0, v.normal.black)));
    let st3 = pal_fold(full.take(3));
    assert(full.take(3).drop_last() =~= full.take(2));
    assert(full.take(3).last() == ls[2]);
    lemma_row_line(st2.0, st2.1, 0, 1, v.normal.red);
    assert(st3 == (Section::Normal, st2.1.insert(1, v.normal.red)));
    let st4 = pal_fold(full.take(4));
    assert(full.take(4).drop_last() =~= full.take(3));
    assert(full.take(4).last() == ls[3]);
    lemma_row_line(st3.0, st3.1, 0, 2, v.normal.green);
    assert(st4 == (Section::Normal, st3.1.insert(2, v.normal.green)));
    let st5 = pal_fold(full.take(5));
    assert(full.take(5).drop_last() =~= full.take(4));
    assert(full.take(5).last() == ls[4]);
    lemma_row_line(st4.0, st4.1, 0, 3, v.normal.yellow);
    assert(st5 == (Section::Normal, st4.1.insert(3, v.normal.yellow)));
    let st6 = pal_fold(full.take(6));
    assert(full.take(6).drop_last() =~= full.take(5));
    assert(full.take(6).last() == ls[5]);
    lemma_row_line(st5.0, st5.1, 0, 4, v.normal.blue);
    assert(st6 == (Section::Normal, st5.1.insert(4, v.normal.blue)));
    let st7 = pal_fold(full.take(7));
    assert(full.take(7).drop_last() =~= full.take(6));
    assert(full.take(7).last() == ls[6]);
    lemma_row_line(st6.0, st6.1, 0, 5, v.normal.magenta);
    assert(st7 == (Section::Normal, st6.1.insert(5, v.normal.magenta)));
    let st8 = pal_fold(full.take(8));
    assert(full.take(8).drop_last() =~= full.take(7));
    assert(full.take(8).last() == ls[7]);
    lemma_row_line(st7.0, st7.1, 0, 6, v.normal.cyan);
    assert(st8 == (Section::Normal, st7.1.insert(6, v.normal.cyan)));
    let st9 = pal_fold(full.take(9));
    assert(full.take(9).drop_last() =~= full.take(8));
    assert(full.take(9).last() == ls[8]);
    lemma_row_line(st8.0, st8.1, 0, 7, v.normal.white);
    assert(st9 == (Section::Normal, st8.1.insert(7, v.normal.white)));
    assert(("[colors.normal]"@)[8] == 'n');
    assert(("[colors.bright]"@)[8] == 'b');
    let st10 = pal_fold(full.take(10));
    assert(full.take(10).drop_last() =~= full.take(9));
    assert(full.take(10).last() == ls[9]);
    assert(st10.0 == Section::Bright && st10.1 == st9.1);
    let st11 = pal_fold(full.take(11));
    assert(full.take(11).drop_last() =~= full.take(10));
    assert(full.take(11).last() == ls[10]);
    lemma_row_line(st10.0, st10.1, 8, 0, v.bright.black);
    assert(st11 == (Section::Bright, st10.1.insert(8, v.bright.black)));
    let st12 = pal_fold(full.take(12));
    assert(full.take(12).drop_last() =~= full.take(11));
    assert(full.take(12).last() == ls[11]);
    lemma_row_line(st11.0, st11.1, 8, 1, v.bright.red);
    assert(st12 == (Section::Bright, st11.1.insert(9, v.bright.red)));
    let st13 = pal_fold(full.take(13));
    assert(full.take(13).drop_last() =~= full.take(12));
    assert(full.take(13).last() == ls[12]);
    lemma_row_line(st12.0, st12.1, 8, 2, v.bright.green);
    assert(st13 == (Section::Bright, st12.1.insert(10, v.bright.green)));
    let st14 = pal_fold(full.take(14));
    assert(full.take(14).drop_last() =~= full.take(13));
    assert(full.take(14).last() == ls[13]);
    lemma_row_line(st13.0, st13.1, 8, 3, v.bright.yellow);
    assert(st14 == (Section::Bright, st13.1.insert(11, v.bright.yellow)));
    let st15 = pal_fold(full.take(15));
    assert(full.take(15).drop_last() =~= full.take(14));
    assert(full.take(15).last() == ls[14]);
    lemma_row_line(st14.0, st14.1, 8, 4, v.bright.blue);
    assert(st15 == (Section::Bright, st14.1.insert(12, v.bright.blue)));
    let st16 = pal_fold(full.take(16));
    assert(full.take(16).drop_last() =~= full.take(15));
    assert(full.take(16).last() == ls[15]);
    lemma_row_line(st15.0, st15.1, 8, 5, v.bright.magenta);
    assert(st16 == (Section::Bright, st15.1.insert(13, v.bright.magenta)));
    let st17 = pal_fold(full.take(17));
    assert(full.take(17).drop_last() =~= full.take(16));
    assert(full.take(17).last() == ls[16]);
    lemma_row_line(st16.0, st16.1, 8, 6, v.bright.cyan);
    assert(st17 == (Section::Bright, st16.1.insert(14, v.bright.cyan)));
    let st18 = pal_fold(full.take(18));
    assert(full.take(18).drop_last() =~= full.take(17));
    assert(full.take(18).last() == ls[17]);
    lemma_row_line(st17.0, st17.1, 8, 7, v.bright.white);
    assert(st18 == (Section::Bright, st17.1.insert(15, v.bright.white)));
    let st19 = pal_fold(full.take(19));
    assert(full.take(19).drop_last() =~= full.take(18));
    assert(full.take(19).last() == ls[18]);
    assert(st19.0 == Section::Special && st19.1 == st18.1);
    let st20 = pal_fold(full.take(20));
    assert(full.take(20).drop_last() =~= full.take(19));
    assert(full.take(20).last() == ls[19]);
    lemma_special_line(st19.1, 0, v.special.background);
    assert(st20 == (Section::Special, st19.1.insert(16, v.special.background)));
    let st21 = pal_fold(full.take(21));
    assert(full.take(21).drop_last() =~= full.take(20));
    assert(full.take(21).last() == ls[20]);
    lemma_special_line(st20.1, 1, v.special.foreground);
    assert(st21 == (Section::Special, st20.1.insert(17, v.special.foreground)));
    let st22 = pal_fold(full.take(22));
    assert(full.take(22).drop_last() =~= full.take(21));
    assert(full.take(22).last() == ls[21]);
    lemma_special_line(st21.1, 2, v.special.cursor);
    assert(st22 == (Section::Special, st21.1.insert(18, v.special.cursor)));
    let st23 = pal_fold(full.take(23));
    assert(full.take(23).drop_last() =~= full.take(22));
    assert(full.take(23).last() == Seq::<char>::empty());
    assert(st23 == (Section::Special, st22.1));
    assert(full.take(23) =~= full);
    let m = st23.1;
    assert forall|k: int| 0 <= k < 19 implies m.contains_key(k) by {}
    assert(crate::parser::colors_of_map(m) =~~= v);
    assert(spec_parse_palette(spec_palette_text(v)) == Some(v));
}

} // verus!
