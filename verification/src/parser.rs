//! Parsing of the two file schemas: the theme manifest and the palette file.
//!
//! The accepted shape is the one this tool itself writes: one table header
//! per line (`[colors.normal]`), one `key = "value"` pair per line, and for
//! the manifest, inline lists of quoted strings. Lines of any other shape,
//! and keys that are not part of the schema, are skipped; a required key
//! that is never assigned makes the whole file malformed.

use vstd::prelude::*;

use crate::model::{ColorFile, ColorSet, ColorSetView, Colors, ColorsView, Metadata, MetadataFile,
    MetadataView, SpecialColors, SpecialColorsView};
use crate::text::{spec_split_lines, split_lines, str_eq, str_starts_with};

verus! {

/// Why a file could not be read into its schema.
#[derive(Clone, Copy, Debug, PartialEq, Eq, Structural)]
pub enum ParseError {
    /// The file is absent.
    NotFound,
    /// A required key is missing or has the wrong shape.
    MalformedSchema,
}

/// Which palette table the line cursor is inside.
#[derive(Clone, Copy, Debug, PartialEq, Eq, Structural)]
pub enum Section {
    Outside,
    Normal,
    Bright,
    Special,
}

/// The line assigns a value to the key whose `key = "` prefix is given:
/// it starts with the prefix and closes the quote at its end.
pub open spec fn kv_line(prefix: Seq<char>, l: Seq<char>) -> bool {
    &&& l.len() > prefix.len()
    &&& l.take(prefix.len() as int) == prefix
    &&& l[l.len() - 1] == '"'
}

/// The value the line assigns: what stands between the prefix and the
/// closing quote.
pub open spec fn kv_value(prefix: Seq<char>, l: Seq<char>) -> Seq<char> {
    l.subrange(prefix.len() as int, l.len() - 1)
}

/// The slot a palette colour occupies in the 19-slot assignment map:
/// normal row at 0..8, bright row at 8..16, special colours at 16..19.
pub open spec fn pal_row_step(base: int, m: Map<int, Seq<char>>, l: Seq<char>) -> Map<
    int,
    Seq<char>,
> {
    if kv_line("black = \""@, l) {
        m.insert(base + 0, kv_value("black = \""@, l))
    } else if kv_line("red = \""@, l) {
        m.insert(base + 1, kv_value("red = \""@, l))
    } else if kv_line("green = \""@, l) {
        m.insert(base + 2, kv_value("green = \""@, l))
    } else if kv_line("yellow = \""@, l) {
        m.insert(base + 3, kv_value("yellow = \""@, l))
    } else if kv_line("blue = \""@, l) {
        m.insert(base + 4, kv_value("blue = \""@, l))
    } else if kv_line("magenta = \""@, l) {
        m.insert(base + 5, kv_value("magenta = \""@, l))
    } else if kv_line("cyan = \""@, l) {
        m.insert(base + 6, kv_value("cyan = \""@, l))
    } else if kv_line("white = \""@, l) {
        m.insert(base + 7, kv_value("white = \""@, l))
    } else {
        m
    }
}

/// One line inside the `special` table.
pub open spec fn pal_special_step(m: Map<int, Seq<char>>, l: Seq<char>) -> Map<int, Seq<char>> {
    if kv_line("background = \""@, l) {
        m.insert(16, kv_value("background = \""@, l))
    } else if kv_line("foreground = \""@, l) {
        m.insert(17, kv_value("foreground = \""@, l))
    } else if kv_line("cursor = \""@, l) {
        m.insert(18, kv_value("cursor = \""@, l))
    } else {
        m
    }
}

/// One line of a palette file: a table header switches the section, a known
/// key inside a section assigns its slot, anything else is skipped.
pub open spec fn pal_step(sec: Section, m: Map<int, Seq<char>>, l: Seq<char>) -> (
    Section,
    Map<int, Seq<char>>,
) {
    if l == "[colors.normal]"@ {
        (Section::Normal, m)
    } else if l == "[colors.bright]"@ {
        (Section::Bright, m)
    } else if l == "[colors.special]"@ {
        (Section::Special, m)
    } else if sec == Section::Normal {
        (sec, pal_row_step(0, m, l))
    } else if sec == Section::Bright {
        (sec, pal_row_step(8, m, l))
    } else if sec == Section::Special {
        (sec, pal_special_step(m, l))
    } else {
        (sec, m)
    }
}

/// The parse state after all lines, starting outside any table with no slot
/// assigned.
pub open spec fn pal_fold(ls: Seq<Seq<char>>) -> (Section, Map<int, Seq<char>>)
    decreases ls.len(),
{
    if ls.len() == 0 {
        (Section::Outside, Map::empty())
    } else {
        let st = pal_fold(ls.drop_last());
        pal_step(st.0, st.1, ls.last())
    }
}

/// All 19 required colour keys were assigned.
pub open spec fn pal_complete(m: Map<int, Seq<char>>) -> bool {
    forall|k: int| 0 <= k < 19 ==> m.contains_key(k)
}

/// The palette read off a complete assignment map.
pub open spec fn colors_of_map(m: Map<int, Seq<char>>) -> ColorsView {
    ColorsView {
        normal: ColorSetView {
            black: m[0],
            red: m[1],
            green: m[2],
            yellow: m[3],
            blue: m[4],
            magenta: m[5],
            cyan: m[6],
            white: m[7],
        },
        bright: ColorSetView {
            black: m[8],
            red: m[9],
            green: m[10],
            yellow: m[11],
            blue: m[12],
            magenta: m[13],
            cyan: m[14],
            white: m[15],
        },
        special: SpecialColorsView { background: m[16], foreground: m[17], cursor: m[18] },
    }
}

/// What parsing a palette file yields: the palette if every one of the 19
/// colour keys is assigned, nothing otherwise.
pub open spec fn spec_parse_palette(text: Seq<char>) -> Option<ColorsView> {
    let st = pal_fold(spec_split_lines(text));
    if pal_complete(st.1) {
        Some(colors_of_map(st.1))
    } else {
        None
    }
}

/// The owned slot vector mirrors the ghost assignment map.
pub open spec fn slots_match(m: Map<int, Seq<char>>, sv: Seq<Option<String>>) -> bool {
    &&& sv.len() == 19
    &&& forall|k: int|
        0 <= k < 19 ==> match #[trigger] sv[k] {
            Some(s) => m.contains_key(k) && m[k] == s@,
            None => !m.contains_key(k),
        }
}

/// Extracts the value if the line assigns the key with the given prefix.
fn kv_extract(l: &str, prefix: &str) -> (r: Option<String>)
    ensures
        (match r {
            Some(v) => kv_line(prefix@, l@) && v@ == kv_value(prefix@, l@),
            None => !kv_line(prefix@, l@),
        }),
{
    let ln = l.unicode_len();
    let pn = prefix.unicode_len();
    if ln > pn && str_starts_with(l, prefix) {
        if l.get_char(ln - 1) == '"' {
            let v = l.substring_char(pn, ln - 1).to_owned();
            return Some(v);
        }
    }
    None
}

/// One line inside a normal or bright table.
fn row_step_exec(
    l: &str,
    slots: &mut Vec<Option<String>>,
    base: usize,
    Ghost(m): Ghost<Map<int, Seq<char>>>,
)
    requires
        base == 0 || base == 8,
        slots_match(m, old(slots)@),
    ensures
        slots_match(pal_row_step(base as int, m, l@), final(slots)@),
{
    if let Some(v) = kv_extract(l, "black = \"") {
        slots.set(base + 0, Some(v));
    } else if let Some(v) = kv_extract(l, "red = \"") {
        slots.set(base + 1, Some(v));
    } else if let Some(v) = kv_extract(l, "green = \"") {
        slots.set(base + 2, Some(v));
    } else if let Some(v) = kv_extract(l, "yellow = \"") {
        slots.set(base + 3, Some(v));
    } else if let Some(v) = kv_extract(l, "blue = \"") {
        slots.set(base + 4, Some(v));
    } else if let Some(v) = kv_extract(l, "magenta = \"") {
        slots.set(base + 5, Some(v));
    } else if let Some(v) = kv_extract(l, "cyan = \"") {
        slots.set(base + 6, Some(v));
    } else if let Some(v) = kv_extract(l, "white = \"") {
        slots.set(base + 7, Some(v));
    }
}

/// One line inside the special table.
fn special_step_exec(l: &str, slots: &mut Vec<Option<String>>, Ghost(m): Ghost<Map<int, Seq<char>>>)
    requires
        slots_match(m, old(slots)@),
    ensures
        slots_match(pal_special_step(m, l@), final(slots)@),
{
    if let Some(v) = kv_extract(l, "background = \"") {
        slots.set(16, Some(v));
    } else if let Some(v) = kv_extract(l, "foreground = \"") {
        slots.set(17, Some(v));
    } else if let Some(v) = kv_extract(l, "cursor = \"") {
        slots.set(18, Some(v));
    }
}

/// The owned string held in a slot known to be filled.
fn slot_string(slots: &Vec<Option<String>>, k: usize) -> (r: String)
    requires
        k < slots@.len(),
        slots@[k as int] is Some,
    ensures
        r@ == slots@[k as int]->0@,
{
    match &slots[k] {
        Some(s) => s.clone(),
        None => {
            proof {
                assert(false);
            }
            String::new()
        },
    }
}

/// Reads a palette from the text of a palette file. Exactly the files whose
/// lines assign all 19 colour keys parse; every other text is malformed.
pub fn parse_colors(text: &str) -> (r: Result<Colors, ParseError>)
    ensures
        (match spec_parse_palette(text@) {
            Some(v) => r matches Ok(c) && c@ == v,
            None => r == Err::<Colors, ParseError>(ParseError::MalformedSchema),
        }),
{
    let lines = split_lines(text);
    let ghost ls = lines@.map_values(|l: String| l@);
    let mut sec = Section::Outside;
    let mut slots: Vec<Option<String>> = Vec::new();
    let mut k: usize = 0;
    while k < 19
        invariant
            slots@.len() == k <= 19,
            forall|j: int| 0 <= j < k ==> slots@[j] is None,
        decreases 19 - k,
    {
        slots.push(None);
        k += 1;
    }
    proof {
        assert(ls.take(0) =~= Seq::<Seq<char>>::empty());
        assert(slots_match(pal_fold(ls.take(0)).1, slots@));
    }
    let mut i: usize = 0;
    while i < lines.len()
        invariant
            i <= lines.len(),
            ls == lines@.map_values(|l: String| l@),
            pal_fold(ls.take(i as int)).0 == sec,
            slots_match(pal_fold(ls.take(i as int)).1, slots@),
        decreases lines.len() - i,
    {
        let ghost st = pal_fold(ls.take(i as int));
        proof {
            assert(ls.take(i as int + 1).drop_last() =~= ls.take(i as int));
            assert(ls.take(i as int + 1).last() == ls[i as int]);
            assert(pal_fold(ls.take(i as int + 1)) == pal_step(st.0, st.1, ls[i as int]));
        }
        let l = &lines[i];
        if str_eq(l.as_str(), "[colors.normal]") {
            sec = Section::Normal;
        } else if str_eq(l.as_str(), "[colors.bright]") {
            sec = Section::Bright;
        } else if str_eq(l.as_str(), "[colors.special]") {
            sec = Section::Special;
        } else {
            match sec {
                Section::Normal => row_step_exec(l.as_str(), &mut slots, 0, Ghost(st.1)),
                Section::Bright => row_step_exec(l.as_str(), &mut slots, 8, Ghost(st.1)),
                Section::Special => special_step_exec(l.as_str(), &mut slots, Ghost(st.1)),
                Section::Outside => (),
            }
        }
        i += 1;
    }
    let ghost st = pal_fold(ls);
    proof {
        assert(ls.take(lines.len() as int) =~= ls);
    }
    let mut k: usize = 0;
    while k < 19
        invariant
            k <= 19,
            st == pal_fold(spec_split_lines(text@)),
            slots_match(st.1, slots@),
            forall|j: int| 0 <= j < k ==> slots@[j] is Some,
        decreases 19 - k,
    {
        if slots[k].is_none() {
            proof {
                assert(!st.1.contains_key(k as int));
            }
            return Err(ParseError::MalformedSchema);
        }
        k += 1;
    }
    proof {
        assert forall|j: int| 0 <= j < 19 implies st.1.contains_key(j) by {
            assert(slots@[j] is Some);
        }
    }
    let c = Colors {
        normal: ColorSet {
            black: slot_string(&slots, 0),
            red: slot_string(&slots, 1),
            green: slot_string(&slots, 2),
            yellow: slot_string(&slots, 3),
            blue: slot_string(&slots, 4),
            magenta: slot_string(&slots, 5),
            cyan: slot_string(&slots, 6),
            white: slot_string(&slots, 7),
        },
        bright: ColorSet {
            black: slot_string(&slots, 8),
            red: slot_string(&slots, 9),
            green: slot_string(&slots, 10),
            yellow: slot_string(&slots, 11),
            blue: slot_string(&slots, 12),
            magenta: slot_string(&slots, 13),
            cyan: slot_string(&slots, 14),
            white: slot_string(&slots, 15),
        },
        special: SpecialColors {
            background: slot_string(&slots, 16),
            foreground: slot_string(&slots, 17),
            cursor: slot_string(&slots, 18),
        },
    };
    Ok(c)
}

/// Scans the quoted elements of an inline list, starting just after an
/// opening quote: the characters up to the next quote form one element,
/// and each further element is introduced by `, "`. Nothing is scanned if
/// a quote is unterminated or the separator has another shape.
pub open spec fn scan_elems(s: Seq<char>) -> Option<Seq<Seq<char>>>
    decreases s.len(),
{
    if s.len() == 0 {
        None
    } else if s[0] == '"' {
        let r = s.drop_first();
        if r.len() == 0 {
            Some(seq![Seq::<char>::empty()])
        } else if r.len() >= 3 && r[0] == ',' && r[1] == ' ' && r[2] == '"' {
            match scan_elems(r.skip(3)) {
                Some(es) => Some(seq![Seq::<char>::empty()] + es),
                None => None,
            }
        } else {
            None
        }
    } else {
        match scan_elems(s.drop_first()) {
            Some(es) => Some(es.update(0, seq![s[0]] + es[0])),
            None => None,
        }
    }
}

/// A scan that succeeds yields at least one element.
pub proof fn lemma_scan_elems_nonempty(s: Seq<char>)
    ensures
        scan_elems(s) is Some ==> scan_elems(s)->0.len() >= 1,
    decreases s.len(),
{
    if s.len() == 0 {
    } else if s[0] == '"' {
        let r = s.drop_first();
        if r.len() >= 3 && r[0] == ',' && r[1] == ' ' && r[2] == '"' {
            lemma_scan_elems_nonempty(r.skip(3));
        }
    } else {
        lemma_scan_elems_nonempty(s.drop_first());
    }
}

/// An inline list of quoted strings: `[]`, or `["a", "b"]`.
pub open spec fn parse_qlist(s: Seq<char>) -> Option<Seq<Seq<char>>> {
    if s == "[]"@ {
        Some(Seq::<Seq<char>>::empty())
    } else if s.len() >= 4 && s[0] == '[' && s[1] == '"' && s[s.len() - 1] == ']' {
        scan_elems(s.subrange(2, s.len() - 1))
    } else {
        None
    }
}

/// The manifest parse state: whether the cursor is inside the `theme`
/// table, and which of the four required keys have been assigned.
pub struct MetaState {
    pub in_theme: bool,
    pub name: Option<Seq<char>>,
    pub author: Option<Seq<char>>,
    pub files: Option<Seq<Seq<char>>>,
    pub targets: Option<Seq<Seq<char>>>,
}

/// One line of a manifest file: the `theme` header opens the table, any
/// other header closes it, known keys inside the table assign their field,
/// anything else is skipped.
pub open spec fn meta_step(st: MetaState, l: Seq<char>) -> MetaState {
    if l == "[theme]"@ {
        MetaState { in_theme: true, ..st }
    } else if l.len() > 0 && l[0] == '[' {
        MetaState { in_theme: false, ..st }
    } else if st.in_theme {
        if kv_line("name = \""@, l) {
            MetaState { name: Some(kv_value("name = \""@, l)), ..st }
        } else if kv_line("author = \""@, l) {
            MetaState { author: Some(kv_value("author = \""@, l)), ..st }
        } else if l.len() >= "files = "@.len() && l.take("files = "@.len() as int)
            == "files = "@ {
            match parse_qlist(l.skip("files = "@.len() as int)) {
                Some(fs) => MetaState { files: Some(fs), ..st },
                None => st,
            }
        } else if l.len() >= "targets = "@.len() && l.take("targets = "@.len() as int)
            == "targets = "@ {
            match parse_qlist(l.skip("targets = "@.len() as int)) {
                Some(ts) => MetaState { targets: Some(ts), ..st },
                None => st,
            }
        } else {
            st
        }
    } else {
        st
    }
}

/// The manifest parse state after all lines.
pub open spec fn meta_fold(ls: Seq<Seq<char>>) -> MetaState
    decreases ls.len(),
{
    if ls.len() == 0 {
        MetaState { in_theme: false, name: None, author: None, files: None, targets: None }
    } else {
        meta_step(meta_fold(ls.drop_last()), ls.last())
    }
}

/// What parsing a manifest yields: the metadata if all four required keys
/// are assigned inside the `theme` table, nothing otherwise.
pub open spec fn spec_parse_metadata(text: Seq<char>) -> Option<MetadataView> {
    let st = meta_fold(spec_split_lines(text));
    if st.name is Some && st.author is Some && st.files is Some && st.targets is Some {
        Some(
            MetadataView {
                name: st.name->0,
                author: st.author->0,
                files: st.files->0,
                targets: st.targets->0,
            },
        )
    } else {
        None
    }
}

/// Scans list elements from position `i`, just after an opening quote.
fn scan_elems_exec(s: &str, i: usize) -> (r: Option<Vec<String>>)
    requires
        i <= s@.len(),
    ensures
        (match r {
            Some(es) => scan_elems(s@.skip(i as int)) == Some(
                es@.map_values(|e: String| e@),
            ),
            None => scan_elems(s@.skip(i as int)) is None,
        }),
    decreases s@.len() - i,
{
    let n = s.unicode_len();
    let ghost t = s@.skip(i as int);
    if i == n {
        proof {
            assert(t =~= Seq::<char>::empty());
        }
        return None;
    }
    proof {
        assert(t[0] == s@[i as int]);
    }
    let c = s.get_char(i);
    if c == '"' {
        let ghost rr = t.drop_first();
        proof {
            assert(rr =~= s@.skip(i as int + 1));
        }
        if i + 1 == n {
            let mut es: Vec<String> = Vec::new();
            es.push(String::new());
            proof {
                assert(rr.len() == 0);
                assert(es@.map_values(|e: String| e@) =~= seq![Seq::<char>::empty()]);
            }
            return Some(es);
        }
        if n - i >= 4 && s.get_char(i + 1) == ',' && s.get_char(i + 2) == ' ' && s.get_char(i + 3)
            == '"' {
            proof {
                assert(rr[0] == s@[i as int + 1]);
                assert(rr[1] == s@[i as int + 2]);
                assert(rr[2] == s@[i as int + 3]);
                assert(rr.skip(3) =~= s@.skip(i as int + 4));
            }
            match scan_elems_exec(s, i + 4) {
                Some(mut es) => {
                    proof {
                        lemma_scan_elems_nonempty(s@.skip(i as int + 4));
                    }
                    es.insert(0, String::new());
                    proof {
                        assert(es@.map_values(|e: String| e@) =~= seq![Seq::<char>::empty()]
                            + scan_elems(s@.skip(i as int + 4))->0);
                    }
                    Some(es)
                },
                None => None,
            }
        } else {
            proof {
                if rr.len() >= 3 {
                    assert(rr[0] == s@[i as int + 1]);
                    assert(rr[1] == s@[i as int + 2]);
                    assert(rr[2] == s@[i as int + 3]);
                }
            }
            None
        }
    } else {
        proof {
            assert(t.drop_first() =~= s@.skip(i as int + 1));
        }
        match scan_elems_exec(s, i + 1) {
            Some(mut es) => {
                proof {
                    lemma_scan_elems_nonempty(s@.skip(i as int + 1));
                }
                let first = s.substring_char(i, i + 1);
                let mut ns = first.to_owned();
                ns.append(es[0].as_str());
                proof {
                    assert(first@ =~= seq![s@[i as int]]);
                }
                es.set(0, ns);
                proof {
                    let prev = scan_elems(s@.skip(i as int + 1))->0;
                    assert(es@.map_values(|e: String| e@) =~= prev.update(
                        0,
                        seq![s@[i as int]] + prev[0],
                    ));
                }
                Some(es)
            },
            None => None,
        }
    }
}

/// Reads an inline list of quoted strings.
fn parse_qlist_exec(s: &str) -> (r: Option<Vec<String>>)
    ensures
        (match r {
            Some(es) => parse_qlist(s@) == Some(es@.map_values(|e: String| e@)),
            None => parse_qlist(s@) is None,
        }),
{
    if str_eq(s, "[]") {
        let es: Vec<String> = Vec::new();
        proof {
            assert(es@.map_values(|e: String| e@) =~= Seq::<Seq<char>>::empty());
        }
        return Some(es);
    }
    let n = s.unicode_len();
    if n >= 4 && s.get_char(0) == '[' && s.get_char(1) == '"' && s.get_char(n - 1) == ']' {
        let inner = s.substring_char(2, n - 1);
        let r = scan_elems_exec(inner, 0);
        proof {
            assert(inner@.skip(0) =~= s@.subrange(2, s@.len() - 1));
        }
        r
    } else {
        None
    }
}

/// The exec manifest fields mirror the ghost parse state.
pub open spec fn meta_matches(
    st: MetaState,
    in_theme: bool,
    name: Option<String>,
    author: Option<String>,
    files: Option<Vec<String>>,
    targets: Option<Vec<String>>,
) -> bool {
    &&& st.in_theme == in_theme
    &&& (match name {
        Some(s) => st.name == Some(s@),
        None => st.name is None,
    })
    &&& (match author {
        Some(s) => st.author == Some(s@),
        None => st.author is None,
    })
    &&& (match files {
        Some(v) => st.files == Some(v@.map_values(|e: String| e@)),
        None => st.files is None,
    })
    &&& (match targets {
        Some(v) => st.targets == Some(v@.map_values(|e: String| e@)),
        None => st.targets is None,
    })
}

/// Reads a theme manifest from the text of a manifest file. Exactly the
/// files whose `theme` table assigns `name`, `author`, `files` and
/// `targets` parse; every other text is malformed.
pub fn parse_metadata(text: &str) -> (r: Result<Metadata, ParseError>)
    ensures
        (match spec_parse_metadata(text@) {
            Some(v) => r matches Ok(m) && m@ == v,
            None => r == Err::<Metadata, ParseError>(ParseError::MalformedSchema),
        }),
{
    let lines = split_lines(text);
    let ghost ls = lines@.map_values(|l: String| l@);
    let mut in_theme = false;
    let mut name: Option<String> = None;
    let mut author: Option<String> = None;
    let mut files: Option<Vec<String>> = None;
    let mut targets: Option<Vec<String>> = None;
    proof {
        assert(ls.take(0) =~= Seq::<Seq<char>>::empty());
    }
    let mut i: usize = 0;
    while i < lines.len()
        invariant
            i <= lines.len(),
            ls == lines@.map_values(|l: String| l@),
            meta_matches(meta_fold(ls.take(i as int)), in_theme, name, author, files, targets),
        decreases lines.len() - i,
    {
        let ghost st = meta_fold(ls.take(i as int));
        proof {
            assert(ls.take(i as int + 1).drop_last() =~= ls.take(i as int));
            assert(ls.take(i as int + 1).last() == ls[i as int]);
            assert(meta_fold(ls.take(i as int + 1)) == meta_step(st, ls[i as int]));
        }
        let l = &lines[i];
        if str_eq(l.as_str(), "[theme]") {
            in_theme = true;
        } else if l.unicode_len() > 0 && l.get_char(0) == '[' {
            in_theme = false;
        } else if in_theme {
            if let Some(v) = kv_extract(l.as_str(), "name = \"") {
                name = Some(v);
            } else if let Some(v) = kv_extract(l.as_str(), "author = \"") {
                author = Some(v);
            } else if str_starts_with(l.as_str(), "files = ") {
                proof {
                    reveal_strlit("files = ");
                }
                let rest = l.as_str().substring_char(8, l.as_str().unicode_len());
                proof {
                    assert(rest@ =~= l@.skip("files = "@.len() as int));
                }
                if let Some(fs) = parse_qlist_exec(rest) {
                    files = Some(fs);
                }
            } else if str_starts_with(l.as_str(), "targets = ") {
                proof {
                    reveal_strlit("targets = ");
                }
                let rest = l.as_str().substring_char(10, l.as_str().unicode_len());
                proof {
                    assert(rest@ =~= l@.skip("targets = "@.len() as int));
                }
                if let Some(ts) = parse_qlist_exec(rest) {
                    targets = Some(ts);
                }
            }
        }
        i += 1;
    }
    let ghost st = meta_fold(spec_split_lines(text@));
    proof {
        assert(ls.take(lines.len() as int) =~= ls);
    }
    let nm = match name {
        Some(s) => s,
        None => {
            return Err(ParseError::MalformedSchema);
        },
    };
    let au = match author {
        Some(s) => s,
        None => {
            return Err(ParseError::MalformedSchema);
        },
    };
    let fs = match files {
        Some(v) => v,
        None => {
            return Err(ParseError::MalformedSchema);
        },
    };
    let ts = match targets {
        Some(v) => v,
        None => {
            return Err(ParseError::MalformedSchema);
        },
    };
    let m = Metadata { name: nm, author: au, files: fs, targets: ts };
    proof {
        assert(m@ =~~= spec_parse_metadata(text@)->0);
    }
    Ok(m)
}

/// Reads a full manifest file: its one `theme` table.
pub fn parse_metadata_file(text: &str) -> (r: Result<MetadataFile, ParseError>)
    ensures
        (match spec_parse_metadata(text@) {
            Some(v) => r matches Ok(f) && f.theme@ == v,
            None => r matches Err(e) && e == ParseError::MalformedSchema,
        }),
{
    match parse_metadata(text) {
        Ok(m) => Ok(MetadataFile { theme: m }),
        Err(e) => Err(e),
    }
}

/// Reads a full palette file: its one `colors` table.
pub fn parse_color_file(text: &str) -> (r: Result<ColorFile, ParseError>)
    ensures
        (match spec_parse_palette(text@) {
            Some(v) => r matches Ok(f) && f.colors@ == v,
            None => r matches Err(e) && e == ParseError::MalformedSchema,
        }),
{
    match parse_colors(text) {
        Ok(c) => Ok(ColorFile { colors: c }),
        Err(e) => Err(e),
    }
}

} // verus!
