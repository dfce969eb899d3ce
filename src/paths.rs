//! Path text: splitting into components, normalization, and the directory
//! part of a referrer.
//!
//! Normalization is a stack machine over the components: `..` pops the most
//! recent component (and does nothing on an empty stack), `.` is dropped, and
//! every other component is pushed. A leading `/` on the input is kept.

use vstd::prelude::*;
use vstd::string::*;

use crate::text::{equals, slice_chars, views};

verus! {

/// Splitting state after reading `s`: the finished components and the
/// component being read.
pub open spec fn split_state(s: Seq<char>) -> (Seq<Seq<char>>, Seq<char>)
    decreases s.len(),
{
    if s.len() == 0 {
        (Seq::empty(), Seq::empty())
    } else {
        let (done, cur) = split_state(s.drop_last());
        if s.last() == '/' {
            (if cur.len() > 0 { done.push(cur) } else { done }, Seq::empty())
        } else {
            (done, cur.push(s.last()))
        }
    }
}

/// The components of a path: the non-empty pieces between `/` separators.
pub open spec fn path_components(s: Seq<char>) -> Seq<Seq<char>> {
    let (done, cur) = split_state(s);
    if cur.len() > 0 {
        done.push(cur)
    } else {
        done
    }
}

/// The component `..`.
pub open spec fn parent_marker() -> Seq<char> {
    seq!['.', '.']
}

/// The component `.`.
pub open spec fn current_marker() -> Seq<char> {
    seq!['.']
}

/// The stack left by the normalization machine after reading `cs`.
pub open spec fn normalize_stack(cs: Seq<Seq<char>>) -> Seq<Seq<char>>
    decreases cs.len(),
{
    if cs.len() == 0 {
        Seq::empty()
    } else {
        let st = normalize_stack(cs.drop_last());
        let c = cs.last();
        if c == parent_marker() {
            if st.len() > 0 {
                st.drop_last()
            } else {
                st
            }
        } else if c == current_marker() {
            st
        } else {
            st.push(c)
        }
    }
}

/// The components joined with `/` between them.
pub open spec fn join_components(cs: Seq<Seq<char>>) -> Seq<char>
    decreases cs.len(),
{
    if cs.len() == 0 {
        Seq::empty()
    } else if cs.len() == 1 {
        cs[0]
    } else {
        join_components(cs.drop_last()) + seq!['/'] + cs.last()
    }
}

/// Whether the path text is absolute (begins with `/`).
pub open spec fn is_absolute(s: Seq<char>) -> bool {
    s.len() > 0 && s[0] == '/'
}

/// The normal form of a path.
pub open spec fn normalized(s: Seq<char>) -> Seq<char> {
    let body = join_components(normalize_stack(path_components(s)));
    if is_absolute(s) {
        seq!['/'] + body
    } else {
        body
    }
}

/// Splits a path into its non-empty components.
pub fn split_components(s: &str) -> (r: Vec<String>)
    ensures
        views(r@) == path_components(s@),
{
    let n = s.unicode_len();
    let mut done: Vec<String> = Vec::new();
    let mut start: usize = 0;
    let mut i: usize = 0;
    while i < n
        invariant
            n == s@.len(),
            start <= i <= n,
            views(done@) == split_state(s@.subrange(0, i as int)).0,
            s@.subrange(start as int, i as int) == split_state(s@.subrange(0, i as int)).1,
        decreases n - i,
    {
        let ghost prev = s@.subrange(0, i as int);
        assert(s@.subrange(0, i + 1).drop_last() =~= prev);
        let c = s.get_char(i);
        if c == '/' {
            if start < i {
                let piece = slice_chars(s, start, i);
                done.push(piece);
                assert(views(done@) =~= views(done@).drop_last().push(piece@));
                assert(views(done@).drop_last() =~= split_state(prev).0);
            }
            start = i + 1;
            assert(s@.subrange(start as int, i + 1) =~= Seq::<char>::empty());
        } else {
            assert(s@.subrange(start as int, i + 1) =~= s@.subrange(start as int, i as int).push(c));
        }
        i = i + 1;
    }
    assert(s@.subrange(0, n as int) =~= s@);
    if start < n {
        let piece = slice_chars(s, start, n);
        done.push(piece);
        assert(views(done@) =~= views(done@).drop_last().push(piece@));
    }
    done
}

/// Runs the normalization machine over `cs`.
pub fn normalize_components(cs: &Vec<String>) -> (r: Vec<String>)
    ensures
        views(r@) == normalize_stack(views(cs@)),
{
    let mut stack: Vec<String> = Vec::new();
    let mut k: usize = 0;
    while k < cs.len()
        invariant
            k <= cs.len(),
            views(stack@) == normalize_stack(views(cs@).take(k as int)),
        decreases cs.len() - k,
    {
        let ghost taken = views(cs@).take(k + 1);
        assert(taken.drop_last() =~= views(cs@).take(k as int));
        assert(taken.last() == cs@[k as int]@);
        let c = cs[k].as_str();
        proof {
            reveal_strlit("..");
            reveal_strlit(".");
            assert(".."@ =~= parent_marker());
            assert("."@ =~= current_marker());
        }
        if equals(c, "..") {
            assert(c@ == parent_marker());
            if stack.len() > 0 {
                stack.pop();
                assert(views(stack@) =~= normalize_stack(views(cs@).take(k as int)).drop_last());
            }
        } else if equals(c, ".") {
            assert(c@ == current_marker());
        } else {
            assert(c@ != parent_marker());
            assert(c@ != current_marker());
            stack.push(cs[k].clone());
            assert(views(stack@) =~= normalize_stack(views(cs@).take(k as int)).push(c@));
        }
        k = k + 1;
    }
    assert(views(cs@).take(cs.len() as int) =~= views(cs@));
    stack
}

/// Joins components with `/`, after `lead`.
pub fn join_with_lead(lead: &str, cs: &Vec<String>) -> (r: String)
    ensures
        r@ == lead@ + join_components(views(cs@)),
{
    let mut r = String::from_str(lead);
    let mut k: usize = 0;
    while k < cs.len()
        invariant
            k <= cs.len(),
            r@ == lead@ + join_components(views(cs@).take(k as int)),
        decreases cs.len() - k,
    {
        let ghost taken = views(cs@).take(k + 1);
        assert(taken.drop_last() =~= views(cs@).take(k as int));
        proof {
            reveal_strlit("/");
        }
        if k > 0 {
            r.append("/");
        }
        r.append(cs[k].as_str());
        proof {
            if k == 0 {
                assert(taken.len() == 1);
                assert(join_components(views(cs@).take(0)) == Seq::<char>::empty());
                assert(r@ =~= lead@ + join_components(taken));
            } else {
                assert(r@ =~= lead@ + join_components(taken));
            }
        }
        k = k + 1;
    }
    assert(views(cs@).take(cs.len() as int) =~= views(cs@));
    r
}

/// Normalize a path by resolving `.` and `..` components.
pub fn normalize_path(path: &str) -> (r: String)
    ensures
        r@ == normalized(path@),
{
    let comps = split_components(path);
    let stack = normalize_components(&comps);
    let absolute = path.unicode_len() > 0 && path.get_char(0) == '/';
    proof {
        reveal_strlit("/");
        reveal_strlit("");
    }
    if absolute {
        let r = join_with_lead("/", &stack);
        assert(r@ =~= normalized(path@));
        r
    } else {
        let r = join_with_lead("", &stack);
        assert(r@ =~= normalized(path@));
        r
    }
}

/// The index of the last `c` in `s`, or -1 when there is none.
pub open spec fn last_index_of(s: Seq<char>, c: char) -> int
    decreases s.len(),
{
    if s.len() == 0 {
        -1
    } else if s.last() == c {
        s.len() - 1
    } else {
        last_index_of(s.drop_last(), c)
    }
}

proof fn lemma_last_index_bounds(s: Seq<char>, c: char)
    ensures
        -1 <= last_index_of(s, c) < s.len(),
        last_index_of(s, c) >= 0 ==> s[last_index_of(s, c)] == c,
    decreases s.len(),
{
    if s.len() > 0 && s.last() != c {
        lemma_last_index_bounds(s.drop_last(), c);
    }
}

/// Finds the last `c` in `s`.
pub fn last_index(s: &str, c: char) -> (r: Option<usize>)
    ensures
        match r {
            Some(i) => i == last_index_of(s@, c) && i < s@.len(),
            None => last_index_of(s@, c) == -1,
        },
{
    let n = s.unicode_len();
    let mut found: Option<usize> = None;
    let mut i: usize = 0;
    while i < n
        invariant
            n == s@.len(),
            i <= n,
            match found {
                Some(k) => k == last_index_of(s@.take(i as int), c) && k < i,
                None => last_index_of(s@.take(i as int), c) == -1,
            },
        decreases n - i,
    {
        assert(s@.take(i + 1).drop_last() =~= s@.take(i as int));
        if s.get_char(i) == c {
            found = Some(i);
        }
        i = i + 1;
    }
    assert(s@.take(n as int) =~= s@);
    found
}

/// The directory part of a path: its text up to and including the last
/// `/`, or nothing when it has no `/`.
pub open spec fn dir_part(s: Seq<char>) -> Seq<char> {
    s.take(last_index_of(s, '/') + 1)
}

/// The text of a URL before its last `/` (its last segment dropped).
pub open spec fn url_dir(s: Seq<char>) -> Seq<char> {
    if last_index_of(s, '/') >= 0 {
        s.take(last_index_of(s, '/'))
    } else {
        Seq::empty()
    }
}

/// `s` without its leading `./` pieces.
pub open spec fn strip_dot_slash(s: Seq<char>) -> Seq<char>
    decreases s.len(),
{
    if s.len() >= 2 && s[0] == '.' && s[1] == '/' {
        strip_dot_slash(s.skip(2))
    } else {
        s
    }
}

/// Returns the directory part of a path.
pub fn dir_part_of(s: &str) -> (r: String)
    ensures
        r@ == dir_part(s@),
{
    proof {
        lemma_last_index_bounds(s@, '/');
    }
    let n = s.unicode_len();
    match last_index(s, '/') {
        Some(i) => slice_chars(s, 0, i + 1),
        None => {
            let r = slice_chars(s, 0, 0);
            assert(r@ =~= dir_part(s@));
            r
        },
    }
}

/// Returns a URL's text before its last `/`.
pub fn url_dir_of(s: &str) -> (r: String)
    ensures
        r@ == url_dir(s@),
{
    proof {
        lemma_last_index_bounds(s@, '/');
    }
    match last_index(s, '/') {
        Some(i) => slice_chars(s, 0, i),
        None => {
            let r = slice_chars(s, 0, 0);
            assert(r@ =~= url_dir(s@));
            r
        },
    }
}

/// Returns `s` without its leading `./` pieces.
pub fn strip_leading_dot_slash(s: &str) -> (r: String)
    ensures
        r@ == strip_dot_slash(s@),
{
    let n = s.unicode_len();
    let mut i: usize = 0;
    assert(s@.skip(0) =~= s@);
    while n - i >= 2 && s.get_char(i) == '.' && s.get_char(i + 1) == '/'
        invariant
            n == s@.len(),
            i <= n,
            strip_dot_slash(s@) == strip_dot_slash(s@.skip(i as int)),
        decreases n - i,
    {
        assert(s@.skip(i as int).skip(2) =~= s@.skip(i + 2));
        i = i + 2;
    }
    let r = slice_chars(s, i, n);
    assert(r@ =~= s@.skip(i as int));
    r
}

/// The extension of a path's file name, with its dot: the text from the
/// last `.` of the last component, when that `.` is not the component's
/// first character (and the component is not `..`).
pub open spec fn extension_of(path: Seq<char>) -> Option<Seq<char>> {
    let cs = path_components(path);
    if cs.len() == 0 {
        None
    } else {
        let f = cs.last();
        if f == parent_marker() || last_index_of(f, '.') <= 0 {
            None
        } else {
            Some(f.skip(last_index_of(f, '.')))
        }
    }
}

/// Returns the extension of a path's file name, with its dot.
pub fn path_extension(path: &str) -> (r: Option<String>)
    ensures
        match r {
            Some(e) => extension_of(path@) == Some(e@),
            None => extension_of(path@) is None,
        },
{
    let comps = split_components(path);
    if comps.len() == 0 {
        return None;
    }
    let f = comps[comps.len() - 1].as_str();
    assert(f@ == path_components(path@).last());
    proof {
        reveal_strlit("..");
        assert(".."@ =~= parent_marker());
        lemma_last_index_bounds(f@, '.');
    }
    if equals(f, "..") {
        return None;
    }
    let n = f.unicode_len();
    match last_index(f, '.') {
        Some(i) => {
            if i == 0 {
                None
            } else {
                let e = slice_chars(f, i, n);
                assert(e@ =~= f@.skip(i as int));
                Some(e)
            }
        },
        None => None,
    }
}

} // verus!
