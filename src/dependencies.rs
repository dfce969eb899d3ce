//! Dependency extraction: a best-effort, syntactically triggered scan of
//! module source for `import ... from "<spec>"`, `import("<spec>")` and
//! `export ... from "<spec>"`. It is not a parser: quoted text or comments
//! that happen to match also count.
//!
//! The three shapes are written as regular expressions for the `regex`
//! crate. The specifiers of all three are listed in order of their offset in
//! the source (a tie keeps the shapes' order above); duplicates are kept.

use vstd::prelude::*;

verus! {

/// Static imports: `import ... from '<spec>'`.
pub const STATIC_IMPORT: &'static str = "import\\s+.*?from\\s+['\"]([^'\"]+)['\"]";

/// Dynamic imports: `import('<spec>')`.
pub const DYNAMIC_IMPORT: &'static str = "import\\s*\\(\\s*['\"]([^'\"]+)['\"]";

/// Re-exports: `export ... from '<spec>'`.
pub const REEXPORT: &'static str = "export\\s+.*?from\\s+['\"]([^'\"]+)['\"]";

/// A specifier found in source text: its byte offset and its text.
pub type Found = (usize, Seq<char>);

/// What the `regex` crate finds for `pattern` in `text`: `None` when the
/// pattern does not compile, else, for each successive non-overlapping
/// match, its first group (byte offset and text) if that group took part.
pub uninterp spec fn pattern_captures(pattern: Seq<char>, text: Seq<char>) -> Option<
    Seq<Option<Found>>,
>;

/// The views of found specifiers.
pub open spec fn found_views(v: Seq<(usize, String)>) -> Seq<Found> {
    v.map_values(|f: (usize, String)| (f.0, f.1@))
}

/// The views of optional found specifiers.
pub open spec fn group_views(v: Seq<Option<(usize, String)>>) -> Seq<Option<Found>> {
    v.map_values(
        |g: Option<(usize, String)>|
            match g {
                Some(f) => Some((f.0, f.1@)),
                None => None,
            },
    )
}

/// The present entries of a sequence of optional ones, in order.
pub open spec fn present(s: Seq<Option<Found>>) -> Seq<Found>
    decreases s.len(),
{
    if s.len() == 0 {
        Seq::empty()
    } else {
        match s.last() {
            Some(f) => present(s.drop_last()).push(f),
            None => present(s.drop_last()),
        }
    }
}

/// Relies on `regex::Regex::new` to compile the pattern and on
/// `Regex::captures_iter` to list its matches; the result depends on the
/// pattern and the text alone.
#[verifier::external_body]
fn group_matches(pattern: &str, text: &str) -> (r: Option<Vec<Option<(usize, String)>>>)
    ensures
        match r {
            Some(v) => pattern_captures(pattern@, text@) == Some(group_views(v@)),
            None => pattern_captures(pattern@, text@) is None,
        },
{
    match regex::Regex::new(pattern) {
        Ok(re) => Some(
            re.captures_iter(text).map(
                |c| c.get(1).map(|m| (m.start(), m.as_str().to_string())),
            ).collect(),
        ),
        Err(_) => None,
    }
}

/// The present entries of `groups`, in order.
pub fn present_groups(groups: &Vec<Option<(usize, String)>>) -> (r: Vec<(usize, String)>)
    ensures
        found_views(r@) == present(group_views(groups@)),
{
    let mut r: Vec<(usize, String)> = Vec::new();
    let mut k: usize = 0;
    while k < groups.len()
        invariant
            k <= groups.len(),
            found_views(r@) == present(group_views(groups@).take(k as int)),
        decreases groups.len() - k,
    {
        let ghost taken = group_views(groups@).take(k + 1);
        assert(taken.drop_last() =~= group_views(groups@).take(k as int));
        match &groups[k] {
            Some(f) => {
                let ghost before = r@;
                let item = (f.0, f.1.clone());
                r.push(item);
                assert(found_views(r@) =~= found_views(before).push((f.0, f.1@)));
            },
            None => {},
        }
        k = k + 1;
    }
    assert(group_views(groups@).take(groups.len() as int) =~= group_views(groups@));
    r
}

/// Two lists of found specifiers merged by offset; on equal offsets the
/// first list's entry comes first.
pub open spec fn merge_by_offset(a: Seq<Found>, b: Seq<Found>) -> Seq<Found>
    decreases a.len() + b.len(),
{
    if a.len() == 0 {
        b
    } else if b.len() == 0 {
        a
    } else if a[0].0 <= b[0].0 {
        seq![a[0]] + merge_by_offset(a.drop_first(), b)
    } else {
        seq![b[0]] + merge_by_offset(a, b.drop_first())
    }
}

/// The texts of found specifiers.
pub open spec fn found_texts(s: Seq<Found>) -> Seq<Seq<char>> {
    s.map_values(|f: Found| f.1)
}

/// The matches of a pattern, none when it does not compile.
pub open spec fn captures_or_empty(pattern: Seq<char>, text: Seq<char>) -> Seq<Found> {
    match pattern_captures(pattern, text) {
        Some(s) => present(s),
        None => Seq::empty(),
    }
}

/// The dependency specifiers of `code`, in order of offset.
pub open spec fn dependencies_of(code: Seq<char>) -> Seq<Seq<char>> {
    found_texts(
        merge_by_offset(
            merge_by_offset(
                captures_or_empty(STATIC_IMPORT@, code),
                captures_or_empty(DYNAMIC_IMPORT@, code),
            ),
            captures_or_empty(REEXPORT@, code),
        ),
    )
}

/// Merge two lists of found specifiers by offset.
pub fn merge_found(a: &Vec<(usize, String)>, b: &Vec<(usize, String)>) -> (r: Vec<(usize, String)>)
    ensures
        found_views(r@) == merge_by_offset(found_views(a@), found_views(b@)),
{
    let ghost fa = found_views(a@);
    let ghost fb = found_views(b@);
    let mut out: Vec<(usize, String)> = Vec::new();
    let mut i: usize = 0;
    let mut j: usize = 0;
    assert(fa.skip(0) =~= fa);
    assert(fb.skip(0) =~= fb);
    assert(found_views(out@) =~= Seq::<Found>::empty());
    assert(found_views(out@) + merge_by_offset(fa, fb) =~= merge_by_offset(fa, fb));
    while i < a.len() || j < b.len()
        invariant
            i <= a.len(),
            j <= b.len(),
            fa == found_views(a@),
            fb == found_views(b@),
            found_views(out@) + merge_by_offset(fa.skip(i as int), fb.skip(j as int))
                == merge_by_offset(fa, fb),
        decreases a.len() + b.len() - i - j,
    {
        let ghost sa = fa.skip(i as int);
        let ghost sb = fb.skip(j as int);
        let take_a = j >= b.len() || (i < a.len() && a[i].0 <= b[j].0);
        let ghost before = out@;
        if take_a {
            let item = (a[i].0, a[i].1.clone());
            assert(sa[0] == fa[i as int]);
            assert(sa.drop_first() =~= fa.skip(i + 1));
            assert(sb.len() == 0 ==> sb =~= Seq::<Found>::empty());
            assert(merge_by_offset(sa, sb) == seq![sa[0]] + merge_by_offset(sa.drop_first(), sb));
            out.push(item);
            assert(found_views(out@) =~= found_views(before).push(sa[0]));
            i = i + 1;
        } else {
            let item = (b[j].0, b[j].1.clone());
            assert(sb[0] == fb[j as int]);
            assert(sb.drop_first() =~= fb.skip(j + 1));
            assert(sa.len() == 0 ==> sa =~= Seq::<Found>::empty());
            assert(merge_by_offset(sa, sb) == seq![sb[0]] + merge_by_offset(sa, sb.drop_first()));
            out.push(item);
            assert(found_views(out@) =~= found_views(before).push(sb[0]));
            j = j + 1;
        }
        assert(found_views(out@) + merge_by_offset(fa.skip(i as int), fb.skip(j as int))
            =~= found_views(before) + merge_by_offset(sa, sb));
    }
    assert(fa.skip(i as int) =~= Seq::<Found>::empty());
    assert(fb.skip(j as int) =~= Seq::<Found>::empty());
    assert(found_views(out@) =~= found_views(out@) + merge_by_offset(fa.skip(i as int), fb.skip(j as int)));
    out
}

/// The texts of found specifiers, in order.
pub fn texts_of(found: &Vec<(usize, String)>) -> (r: Vec<String>)
    ensures
        crate::text::views(r@) == found_texts(found_views(found@)),
{
    let mut r: Vec<String> = Vec::new();
    let mut k: usize = 0;
    while k < found.len()
        invariant
            k <= found.len(),
            crate::text::views(r@) == found_texts(found_views(found@)).take(k as int),
        decreases found.len() - k,
    {
        let ghost before = r@;
        let t = found[k].1.clone();
        r.push(t);
        assert(crate::text::views(r@) =~= crate::text::views(before).push(t@));
        assert(found_texts(found_views(found@)).take(k + 1) =~= found_texts(found_views(found@)).take(
            k as int,
        ).push(t@));
        k = k + 1;
    }
    assert(found_texts(found_views(found@)).take(found.len() as int) =~= found_texts(
        found_views(found@),
    ));
    r
}

/// The matches of one pattern, empty when it does not compile.
fn matches_of(pattern: &str, code: &str) -> (r: Vec<(usize, String)>)
    ensures
        found_views(r@) == captures_or_empty(pattern@, code@),
{
    match group_matches(pattern, code) {
        Some(v) => present_groups(&v),
        None => {
            let v: Vec<(usize, String)> = Vec::new();
            assert(found_views(v@) =~= Seq::<Found>::empty());
            v
        },
    }
}

/// Combine the matches of the three shapes into the dependency list.
pub fn combine_matches(
    static_imports: &Vec<(usize, String)>,
    dynamic_imports: &Vec<(usize, String)>,
    reexports: &Vec<(usize, String)>,
) -> (r: Vec<String>)
    ensures
        crate::text::views(r@) == found_texts(
            merge_by_offset(
                merge_by_offset(found_views(static_imports@), found_views(dynamic_imports@)),
                found_views(reexports@),
            ),
        ),
{
    let first = merge_found(static_imports, dynamic_imports);
    let all = merge_found(&first, reexports);
    texts_of(&all)
}

/// Extract the dependency specifiers of module source text.
pub fn extract_dependencies(code: &str) -> (r: Vec<String>)
    ensures
        crate::text::views(r@) == dependencies_of(code@),
{
    let a = matches_of(STATIC_IMPORT, code);
    let b = matches_of(DYNAMIC_IMPORT, code);
    let c = matches_of(REEXPORT, code);
    combine_matches(&a, &b, &c)
}

} // verus!
