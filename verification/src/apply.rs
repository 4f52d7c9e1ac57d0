//! Planning one application of a named theme: where its files live, what
//! parsing them yields, which targets are rendered and which are skipped,
//! and the summary of the whole operation.
//!
//! The plan is pure: the front end reads the two theme files, hands their
//! text here, and then performs exactly the writes and reload actions the
//! plan lists.

use vstd::prelude::*;

use crate::model::{Colors, ColorsView, Metadata};
use crate::parser::{parse_colors, parse_metadata, spec_parse_metadata, spec_parse_palette,
    ParseError};
use crate::render::{render, spec_render, RenderedConfig, RenderedConfigView};

verus! {

/// Why a whole apply or preview failed. Unknown targets are never fatal:
/// only an unreadable manifest or palette aborts the operation.
#[derive(Clone, Copy, Debug, PartialEq, Eq, Structural)]
pub enum ApplyError {
    /// The manifest file is absent or malformed.
    MetadataUnreadable(ParseError),
    /// The active variant's palette file is absent or malformed.
    PaletteUnreadable(ParseError),
}

/// Everything one apply will do: the files to write, with their reload
/// actions, and the target identifiers skipped as unsupported.
pub struct ApplyPlan {
    pub writes: Vec<RenderedConfig>,
    pub skipped: Vec<String>,
}

/// Mathematical view of an `ApplyPlan`.
#[verifier::ext_equal]
pub struct ApplyPlanView {
    pub writes: Seq<RenderedConfigView>,
    pub skipped: Seq<Seq<char>>,
}

impl View for ApplyPlan {
    type V = ApplyPlanView;

    open spec fn view(&self) -> ApplyPlanView {
        ApplyPlanView {
            writes: self.writes@.map_values(|w: RenderedConfig| w@),
            skipped: self.skipped@.map_values(|s: String| s@),
        }
    }
}

/// The plan for a list of targets, in order: each supported target adds
/// its rendered artifact, each unknown identifier is recorded as skipped.
pub open spec fn spec_plan(targets: Seq<Seq<char>>, v: ColorsView, home: Seq<char>) -> ApplyPlanView
    decreases targets.len(),
{
    if targets.len() == 0 {
        ApplyPlanView { writes: Seq::<RenderedConfigView>::empty(), skipped: Seq::<Seq<char>>::empty() }
    } else {
        let p = spec_plan(targets.drop_last(), v, home);
        match spec_render(targets.last(), v, home) {
            Some(r) => ApplyPlanView { writes: p.writes.push(r), skipped: p.skipped },
            None => ApplyPlanView { writes: p.writes, skipped: p.skipped.push(targets.last()) },
        }
    }
}

/// Renders every target the manifest lists, in the order listed: one
/// artifact per supported target, one skip per unknown identifier.
pub fn plan_apply(m: &Metadata, colors: &Colors, home: &str) -> (plan: ApplyPlan)
    ensures
        plan@ == spec_plan(m@.targets, colors@, home@),
{
    let ghost ts = m@.targets;
    let mut writes: Vec<RenderedConfig> = Vec::new();
    let mut skipped: Vec<String> = Vec::new();
    proof {
        assert(ts.take(0) =~= Seq::<Seq<char>>::empty());
        assert(writes@.map_values(|w: RenderedConfig| w@) =~= Seq::<RenderedConfigView>::empty());
        assert(skipped@.map_values(|s: String| s@) =~= Seq::<Seq<char>>::empty());
    }
    let mut i: usize = 0;
    while i < m.targets.len()
        invariant
            i <= m.targets.len(),
            ts == m@.targets,
            ts.len() == m.targets@.len(),
            writes@.map_values(|w: RenderedConfig| w@) == spec_plan(
                ts.take(i as int),
                colors@,
                home@,
            ).writes,
            skipped@.map_values(|s: String| s@) == spec_plan(
                ts.take(i as int),
                colors@,
                home@,
            ).skipped,
        decreases m.targets.len() - i,
    {
        proof {
            assert(ts.take(i as int + 1).drop_last() =~= ts.take(i as int));
            assert(ts.take(i as int + 1).last() == ts[i as int]);
        }
        let target = &m.targets[i];
        match render(target.as_str(), colors, home) {
            Ok(rc) => {
                proof {
                    assert(writes@.push(rc).map_values(|w: RenderedConfig| w@) =~= writes@
                        .map_values(|w: RenderedConfig| w@).push(rc@));
                }
                writes.push(rc);
            },
            Err(_) => {
                let t = target.clone();
                proof {
                    assert(skipped@.push(t).map_values(|s: String| s@) =~= skipped@.map_values(
                        |s: String| s@,
                    ).push(t@));
                }
                skipped.push(t);
            },
        }
        i += 1;
    }
    proof {
        assert(ts.take(m.targets@.len() as int) =~= ts);
    }
    let plan = ApplyPlan { writes, skipped };
    plan
}

/// The directory of a named theme under the user's configuration tree.
pub fn theme_dir(home: &str, theme_name: &str) -> (r: String)
    ensures
        r@ == home@ + "/.config/themey/themes/"@ + theme_name@,
{
    let mut s = home.to_owned();
    s.append("/.config/themey/themes/");
    s.append(theme_name);
    s
}

/// The manifest file inside a theme's directory.
pub fn metadata_path(base: &str) -> (r: String)
    ensures
        r@ == base@ + "/metadata.toml"@,
{
    let mut s = base.to_owned();
    s.append("/metadata.toml");
    s
}

/// The palette file of the active variant: the first entry of the
/// manifest's file list. A manifest with no variant file is unusable.
pub fn variant_path(base: &str, m: &Metadata) -> (r: Result<String, ApplyError>)
    ensures
        m@.files.len() == 0 ==> r == Err::<String, ApplyError>(
            ApplyError::MetadataUnreadable(ParseError::MalformedSchema),
        ),
        m@.files.len() > 0 ==> (r matches Ok(p) && p@ == base@ + "/"@ + m@.files[0]),
{
    if m.files.len() == 0 {
        return Err(ApplyError::MetadataUnreadable(ParseError::MalformedSchema));
    }
    let mut s = base.to_owned();
    s.append("/");
    s.append(m.files[0].as_str());
    Ok(s)
}

/// Reads the manifest from the text of the manifest file, if the file
/// could be read at all: an absent file or an unparsable text aborts the
/// whole operation.
pub fn resolve_metadata(text: Option<&str>) -> (r: Result<Metadata, ApplyError>)
    ensures
        (match text {
            None => r == Err::<Metadata, ApplyError>(
                ApplyError::MetadataUnreadable(ParseError::NotFound),
            ),
            Some(t) => match spec_parse_metadata(t@) {
                Some(v) => r matches Ok(m) && m@ == v,
                None => r == Err::<Metadata, ApplyError>(
                    ApplyError::MetadataUnreadable(ParseError::MalformedSchema),
                ),
            },
        }),
{
    match text {
        None => Err(ApplyError::MetadataUnreadable(ParseError::NotFound)),
        Some(t) => match parse_metadata(t) {
            Ok(m) => Ok(m),
            Err(_) => Err(ApplyError::MetadataUnreadable(ParseError::MalformedSchema)),
        },
    }
}

/// Reads the palette from the text of the variant file, if the file could
/// be read at all.
pub fn resolve_palette(text: Option<&str>) -> (r: Result<Colors, ApplyError>)
    ensures
        (match text {
            None => r == Err::<Colors, ApplyError>(
                ApplyError::PaletteUnreadable(ParseError::NotFound),
            ),
            Some(t) => match spec_parse_palette(t@) {
                Some(v) => r matches Ok(c) && c@ == v,
                None => r == Err::<Colors, ApplyError>(
                    ApplyError::PaletteUnreadable(ParseError::MalformedSchema),
                ),
            },
        }),
{
    match text {
        None => Err(ApplyError::PaletteUnreadable(ParseError::NotFound)),
        Some(t) => match parse_colors(t) {
            Ok(c) => Ok(c),
            Err(_) => Err(ApplyError::PaletteUnreadable(ParseError::MalformedSchema)),
        },
    }
}

/// Plans one apply from the already-parsed manifest and the palette file's
/// text. An unreadable palette aborts before anything is planned, so
/// nothing at all is written; unknown targets only land in the skip list.
pub fn plan_theme(m: &Metadata, palette_text: Option<&str>, home: &str) -> (r: Result<
    ApplyPlan,
    ApplyError,
>)
    ensures
        (match palette_text {
            None => r matches Err(e) && e == ApplyError::PaletteUnreadable(ParseError::NotFound),
            Some(t) => match spec_parse_palette(t@) {
                Some(v) => r matches Ok(p) && p@ == spec_plan(m@.targets, v, home@),
                None => r matches Err(e) && e == ApplyError::PaletteUnreadable(
                    ParseError::MalformedSchema,
                ),
            },
        }),
{
    let colors = match resolve_palette(palette_text) {
        Ok(c) => c,
        Err(e) => {
            return Err(e);
        },
    };
    Ok(plan_apply(m, &colors, home))
}

/// What one apply did: the theme's display identity, how many targets were
/// written and how many were skipped as unsupported.
#[derive(Clone)]
pub struct AppliedSummary {
    pub name: String,
    pub author: String,
    pub written: usize,
    pub skipped: usize,
}

/// The summary of a finished plan.
pub fn summarize(m: &Metadata, plan: &ApplyPlan) -> (s: AppliedSummary)
    ensures
        s.name@ == m@.name,
        s.author@ == m@.author,
        s.written == plan@.writes.len(),
        s.skipped == plan@.skipped.len(),
{
    AppliedSummary {
        name: m.name.clone(),
        author: m.author.clone(),
        written: plan.writes.len(),
        skipped: plan.skipped.len(),
    }
}

/// A manifest with an empty target set plans zero writes and zero skips:
/// the apply succeeds and touches nothing.
pub proof fn lemma_apply_empty_targets(v: ColorsView, home: Seq<char>)
    ensures
        spec_plan(Seq::<Seq<char>>::empty(), v, home).writes == Seq::<RenderedConfigView>::empty(),
        spec_plan(Seq::<Seq<char>>::empty(), v, home).skipped == Seq::<Seq<char>>::empty(),
{
}

/// Two supported targets beside an unknown identifier still render, in
/// order, and exactly the unknown identifier is skipped: one bad target
/// never aborts an apply.
pub proof fn lemma_apply_skips_unknown(
    t1: Seq<char>,
    t2: Seq<char>,
    unknown: Seq<char>,
    v: ColorsView,
    home: Seq<char>,
)
    requires
        spec_render(t1, v, home) is Some,
        spec_render(t2, v, home) is Some,
        spec_render(unknown, v, home) is None,
    ensures
        spec_plan(seq![t1, t2, unknown], v, home).writes == seq![
            spec_render(t1, v, home)->0,
            spec_render(t2, v, home)->0,
        ],
        spec_plan(seq![t1, t2, unknown], v, home).skipped == seq![unknown],
{
    let ts = seq![t1, t2, unknown];
    lemma_apply_empty_targets(v, home);
    assert(ts.drop_last() =~= seq![t1, t2]);
    assert(seq![t1, t2].drop_last() =~= seq![t1]);
    assert(seq![t1].drop_last() =~= Seq::<Seq<char>>::empty());
    assert(spec_plan(seq![t1], v, home).writes =~= seq![spec_render(t1, v, home)->0]);
    assert(spec_plan(seq![t1], v, home).skipped =~= Seq::<Seq<char>>::empty());
    assert(spec_plan(seq![t1, t2], v, home).skipped =~= Seq::<Seq<char>>::empty());
    assert(spec_plan(seq![t1, t2], v, home).writes =~= seq![
        spec_render(t1, v, home)->0,
        spec_render(t2, v, home)->0,
    ]);
    assert(spec_plan(ts, v, home).writes =~= seq![
        spec_render(t1, v, home)->0,
        spec_render(t2, v, home)->0,
    ]);
    assert(spec_plan(ts, v, home).skipped =~= seq![unknown]);
}

} // verus!
