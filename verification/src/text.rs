//! Line-oriented text helpers: splitting a file into lines, joining lines
//! with trailing newlines, and exact string comparisons.

use vstd::prelude::*;

verus! {

/// No newline occurs in the sequence.
pub open spec fn line_free(l: Seq<char>) -> bool {
    forall|i: int| 0 <= i < l.len() ==> l[i] != '\n'
}

/// The lines of a text, split at every newline. There is always at least one
/// line, and a trailing newline yields a final empty line.
pub open spec fn spec_split_lines(s: Seq<char>) -> Seq<Seq<char>>
    decreases s.len(),
{
    if s.len() == 0 {
        seq![Seq::<char>::empty()]
    } else if s[0] == '\n' {
        seq![Seq::<char>::empty()] + spec_split_lines(s.drop_first())
    } else {
        let rest = spec_split_lines(s.drop_first());
        seq![seq![s[0]] + rest[0]] + rest.drop_first()
    }
}

/// The text formed by ending every line with a newline.
pub open spec fn spec_join_nl(ls: Seq<Seq<char>>) -> Seq<char>
    decreases ls.len(),
{
    if ls.len() == 0 {
        Seq::<char>::empty()
    } else {
        ls[0] + seq!['\n'] + spec_join_nl(ls.drop_first())
    }
}

/// Splitting never yields an empty sequence of lines.
pub proof fn lemma_split_lines_len(s: Seq<char>)
    ensures
        spec_split_lines(s).len() >= 1,
    decreases s.len(),
{
    if s.len() == 0 {
    } else if s[0] == '\n' {
        lemma_split_lines_len(s.drop_first());
    } else {
        lemma_split_lines_len(s.drop_first());
    }
}

/// A newline-free text is a single line.
pub proof fn lemma_split_lines_of_line(a: Seq<char>)
    requires
        line_free(a),
    ensures
        spec_split_lines(a) == seq![a],
    decreases a.len(),
{
    if a.len() == 0 {
        assert(a =~= Seq::<char>::empty());
        assert(spec_split_lines(a) =~= seq![a]);
    } else {
        lemma_split_lines_of_line(a.drop_first());
        let rest = spec_split_lines(a.drop_first());
        assert(rest == seq![a.drop_first()]);
        assert(seq![a[0]] + rest[0] =~= a);
        assert(rest.drop_first() =~= Seq::<Seq<char>>::empty());
        assert(spec_split_lines(a) =~= seq![a]);
    }
}

/// Splitting after a newline-free first line takes that line off the front.
pub proof fn lemma_split_lines_concat(a: Seq<char>, b: Seq<char>)
    requires
        line_free(a),
    ensures
        spec_split_lines(a + seq!['\n'] + b) == seq![a] + spec_split_lines(b),
    decreases a.len(),
{
    let s = a + seq!['\n'] + b;
    if a.len() == 0 {
        assert(s[0] == '\n');
        assert(s.drop_first() =~= b);
        assert(a =~= Seq::<char>::empty());
        assert(seq![Seq::<char>::empty()] + spec_split_lines(b) =~= seq![a] + spec_split_lines(b));
    } else {
        assert(s[0] == a[0]);
        assert(s[0] != '\n');
        lemma_split_lines_concat(a.drop_first(), b);
        assert(s.drop_first() =~= a.drop_first() + seq!['\n'] + b);
        let rest = spec_split_lines(s.drop_first());
        assert(rest == seq![a.drop_first()] + spec_split_lines(b));
        lemma_split_lines_len(b);
        assert(rest[0] == a.drop_first());
        assert(seq![s[0]] + rest[0] =~= a);
        assert(rest.drop_first() =~= spec_split_lines(b));
        assert(spec_split_lines(s) =~= seq![a] + spec_split_lines(b));
    }
}

/// Splitting the joined text recovers the lines, plus the final empty line
/// that the trailing newline leaves.
pub proof fn lemma_split_join_nl(ls: Seq<Seq<char>>)
    requires
        forall|i: int| 0 <= i < ls.len() ==> line_free(#[trigger] ls[i]),
    ensures
        spec_split_lines(spec_join_nl(ls)) == ls + seq![Seq::<char>::empty()],
    decreases ls.len(),
{
    if ls.len() == 0 {
        assert(spec_join_nl(ls) =~= Seq::<char>::empty());
        assert(spec_split_lines(Seq::<char>::empty()) =~= seq![Seq::<char>::empty()]);
        assert(seq![Seq::<char>::empty()] =~= ls + seq![Seq::<char>::empty()]);
    } else {
        lemma_split_join_nl(ls.drop_first());
        lemma_split_lines_concat(ls[0], spec_join_nl(ls.drop_first()));
        assert(seq![ls[0]] + (ls.drop_first() + seq![Seq::<char>::empty()]) =~= ls + seq![
            Seq::<char>::empty(),
        ]);
    }
}

/// Exact character-wise equality of two strings.
pub fn str_eq(a: &str, b: &str) -> (r: bool)
    ensures
        r == (a@ == b@),
{
    let an = a.unicode_len();
    let bn = b.unicode_len();
    if an != bn {
        return false;
    }
    let mut i: usize = 0;
    while i < an
        invariant
            i <= an,
            an == a@.len(),
            an == b@.len(),
            forall|j: int| 0 <= j < i ==> a@[j] == b@[j],
        decreases an - i,
    {
        if a.get_char(i) != b.get_char(i) {
            return false;
        }
        i += 1;
    }
    proof {
        assert(a@ =~= b@);
    }
    true
}

/// Whether `a` begins with the characters of `p`.
pub fn str_starts_with(a: &str, p: &str) -> (r: bool)
    ensures
        r == (a@.len() >= p@.len() && a@.take(p@.len() as int) == p@),
{
    let an = a.unicode_len();
    let pn = p.unicode_len();
    if an < pn {
        return false;
    }
    let mut i: usize = 0;
    while i < pn
        invariant
            i <= pn <= an,
            an == a@.len(),
            pn == p@.len(),
            forall|j: int| 0 <= j < i ==> a@[j] == p@[j],
        decreases pn - i,
    {
        if a.get_char(i) != p.get_char(i) {
            proof {
                assert(a@.take(pn as int)[i as int] == a@[i as int]);
            }
            return false;
        }
        i += 1;
    }
    proof {
        assert(a@.take(pn as int) =~= p@);
    }
    true
}

/// The lines of a text, as a vector of owned strings.
pub fn split_lines(s: &str) -> (lines: Vec<String>)
    ensures
        lines@.map_values(|l: String| l@) == spec_split_lines(s@),
{
    let n = s.unicode_len();
    let mut lines: Vec<String> = Vec::new();
    let mut start: usize = 0;
    let mut i: usize = 0;
    proof {
        assert(s@.skip(0) =~= s@);
        assert(lines@.map_values(|l: String| l@) =~= Seq::<Seq<char>>::empty());
        assert(Seq::<Seq<char>>::empty() + spec_split_lines(s@) =~= spec_split_lines(s@));
    }
    while i < n
        invariant
            start <= i <= n,
            n == s@.len(),
            forall|j: int| start <= j < i ==> s@[j] != '\n',
            spec_split_lines(s@) == lines@.map_values(|l: String| l@) + spec_split_lines(
                s@.skip(start as int),
            ),
        decreases n - i,
    {
        if s.get_char(i) == '\n' {
            let line = s.substring_char(start, i).to_owned();
            proof {
                let mid = s@.subrange(start as int, i as int);
                lemma_split_lines_concat(mid, s@.skip(i as int + 1));
                assert(s@.skip(start as int) =~= mid + seq!['\n'] + s@.skip(i as int + 1));
                assert(lines@.push(line).map_values(|l: String| l@) =~= lines@.map_values(
                    |l: String| l@,
                ).push(mid));
                assert(lines@.map_values(|l: String| l@) + (seq![mid] + spec_split_lines(
                    s@.skip(i as int + 1),
                )) =~= lines@.map_values(|l: String| l@).push(mid) + spec_split_lines(
                    s@.skip(i as int + 1),
                ));
            }
            lines.push(line);
            start = i + 1;
        }
        i += 1;
    }
    let line = s.substring_char(start, n).to_owned();
    proof {
        assert(s@.skip(start as int) =~= s@.subrange(start as int, n as int));
        lemma_split_lines_of_line(s@.skip(start as int));
        assert(lines@.push(line).map_values(|l: String| l@) =~= lines@.map_values(|l: String| l@)
            + seq![line@]);
    }
    lines.push(line);
    lines
}

/// Joins the lines back into one text, one newline after every line.
pub fn join_lines_nl(lines: &Vec<String>) -> (r: String)
    ensures
        r@ == spec_join_nl(lines@.map_values(|l: String| l@)),
{
    let ghost ml = lines@.map_values(|l: String| l@);
    let mut out = String::new();
    let mut i: usize = 0;
    proof {
        reveal_strlit("\n");
        assert(ml.skip(0) =~= ml);
        assert(out@ =~= Seq::<char>::empty());
        assert(Seq::<char>::empty() + spec_join_nl(ml) =~= spec_join_nl(ml));
    }
    while i < lines.len()
        invariant
            i <= lines.len(),
            ml == lines@.map_values(|l: String| l@),
            spec_join_nl(ml) == out@ + spec_join_nl(ml.skip(i as int)),
        decreases lines.len() - i,
    {
        proof {
            reveal_strlit("\n");
            assert(ml.skip(i as int).drop_first() =~= ml.skip(i as int + 1));
            assert(ml.skip(i as int)[0] == ml[i as int]);
        }
        out.append(lines[i].as_str());
        out.append("\n");
        proof {
            assert(spec_join_nl(ml.skip(i as int)) == ml[i as int] + seq!['\n'] + spec_join_nl(
                ml.skip(i as int + 1),
            ));
            assert("\n"@ =~= seq!['\n']);
        }
        i += 1;
        proof {
            assert(spec_join_nl(ml) =~= out@ + spec_join_nl(ml.skip(i as int)));
        }
    }
    proof {
        assert(ml.skip(i as int) =~= Seq::<Seq<char>>::empty());
        assert(spec_join_nl(ml) =~= out@);
    }
    out
}

} // verus!
