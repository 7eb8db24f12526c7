//! Slash-separated remote paths.

use vstd::prelude::*;
use vstd::string::*;

verus! {

/// The character that separates the components of a path.
pub open spec fn is_separator(c: char) -> bool {
    c == '/'
}

/// Appends `current` to `done` unless it is empty.
pub open spec fn flush(done: Seq<Seq<char>>, current: Seq<char>) -> Seq<Seq<char>> {
    if current.len() == 0 {
        done
    } else {
        done.push(current)
    }
}

/// Scans `s` from the left: the components that a separator has closed so
/// far, and the characters read since the last separator.
pub open spec fn scan(s: Seq<char>) -> (Seq<Seq<char>>, Seq<char>)
    decreases s.len(),
{
    if s.len() == 0 {
        (Seq::empty(), Seq::empty())
    } else {
        let (done, current) = scan(s.drop_last());
        if is_separator(s.last()) {
            (flush(done, current), Seq::empty())
        } else {
            (done, current.push(s.last()))
        }
    }
}

/// The components of a path: its maximal separator-free runs, in order.
pub open spec fn split_path(s: Seq<char>) -> Seq<Seq<char>> {
    flush(scan(s).0, scan(s).1)
}

/// The views of a vector of strings.
pub open spec fn names_view(names: Seq<String>) -> Seq<Seq<char>> {
    Seq::new(names.len(), |i: int| names[i]@)
}

/// Splits `path` on `/` and discards empty components.
pub fn parse_path_components(path: &str) -> (components: Vec<String>)
    ensures
        names_view(components@) == split_path(path@),
{
    let n = path.unicode_len();
    let mut components: Vec<String> = Vec::new();
    let mut start: usize = 0;
    let mut i: usize = 0;
    for c in it: path.chars()
        invariant
            n == path@.len(),
            it.seq() == path@,
            i == it.index(),
            start <= i <= n,
            names_view(components@) == scan(path@.subrange(0, i as int)).0,
            path@.subrange(start as int, i as int) == scan(path@.subrange(0, i as int)).1,
    {
        assert(path@.subrange(0, i + 1).drop_last() == path@.subrange(0, i as int));
        if c == '/' {
            if start < i {
                let piece = path.substring_char(start, i);
                components.push(piece.to_owned());
            }
            start = i + 1;
        }
        i = i + 1;
    }
    assert(path@.subrange(0, n as int) == path@);
    if start < n {
        let piece = path.substring_char(start, n);
        components.push(piece.to_owned());
    }
    components
}

/// A sequence of components as `split_path` produces them: none is empty
/// and none holds a separator.
pub open spec fn well_formed_components(components: Seq<Seq<char>>) -> bool {
    forall|i: int|
        0 <= i < components.len() ==> {
            &&& (#[trigger] components[i]).len() > 0
            &&& forall|j: int| 0 <= j < components[i].len() ==> !is_separator(components[i][j])
        }
}

/// The components written out with one separator between neighbours.
pub open spec fn join_path(components: Seq<Seq<char>>) -> Seq<char>
    decreases components.len(),
{
    if components.len() == 0 {
        Seq::empty()
    } else if components.len() == 1 {
        components[0]
    } else {
        join_path(components.drop_last()) + seq!['/'] + components.last()
    }
}

/// A path in its shortest spelling: no leading, trailing or doubled separator.
pub open spec fn normalize(s: Seq<char>) -> Seq<char> {
    join_path(split_path(s))
}

/// Whether every character of `s` is a separator (so `s` names the root).
pub open spec fn only_separators(s: Seq<char>) -> bool {
    forall|i: int| 0 <= i < s.len() ==> is_separator(#[trigger] s[i])
}

proof fn lemma_scan_well_formed(s: Seq<char>)
    ensures
        well_formed_components(scan(s).0),
        forall|j: int| 0 <= j < scan(s).1.len() ==> !is_separator(#[trigger] scan(s).1[j]),
    decreases s.len(),
{
    if s.len() > 0 {
        lemma_scan_well_formed(s.drop_last());
    }
}

/// Every component of a path is non-empty and free of separators.
pub proof fn lemma_split_well_formed(s: Seq<char>)
    ensures
        well_formed_components(split_path(s)),
{
    lemma_scan_well_formed(s);
}

proof fn lemma_scan_append_plain(s: Seq<char>, t: Seq<char>)
    requires
        forall|j: int| 0 <= j < t.len() ==> !is_separator(#[trigger] t[j]),
    ensures
        scan(s + t) == (scan(s).0, scan(s).1 + t),
    decreases t.len(),
{
    if t.len() > 0 {
        let t0 = t.drop_last();
        lemma_scan_append_plain(s, t0);
        assert((s + t).drop_last() == s + t0);
    }
}

proof fn lemma_scan_join(components: Seq<Seq<char>>)
    requires
        well_formed_components(components),
        components.len() > 0,
    ensures
        scan(join_path(components)) == (components.drop_last(), components.last()),
    decreases components.len(),
{
    let last = components.last();
    if components.len() == 1 {
        lemma_scan_append_plain(Seq::empty(), last);
    } else {
        let front = components.drop_last();
        lemma_scan_join(front);
        let closed = join_path(front) + seq!['/'];
        assert(closed.drop_last() == join_path(front));
        lemma_scan_append_plain(closed, last);
    }
}

/// Splitting undoes joining on well-formed components.
pub proof fn lemma_split_join(components: Seq<Seq<char>>)
    requires
        well_formed_components(components),
    ensures
        split_path(join_path(components)) == components,
{
    if components.len() > 0 {
        lemma_scan_join(components);
    }
}

/// Splitting a path and rejoining its components is idempotent: the
/// rejoined path has the same components, and rejoining it again changes
/// nothing.
pub proof fn lemma_normalize_idempotent(s: Seq<char>)
    ensures
        split_path(normalize(s)) == split_path(s),
        normalize(normalize(s)) == normalize(s),
{
    lemma_split_well_formed(s);
    lemma_split_join(split_path(s));
}

proof fn lemma_scan_only_separators(s: Seq<char>)
    ensures
        only_separators(s) <==> (scan(s).0.len() == 0 && scan(s).1.len() == 0),
    decreases s.len(),
{
    if s.len() > 0 {
        let front = s.drop_last();
        lemma_scan_only_separators(front);
        if !only_separators(s) && is_separator(s.last()) && only_separators(front) {
            assert forall|i: int| 0 <= i < s.len() implies is_separator(#[trigger] s[i]) by {
                if i < front.len() {
                    assert(front[i] == s[i]);
                }
            }
        }
    }
}

/// A path has no components exactly when it is empty or made of separators
/// alone.
pub proof fn lemma_split_empty_iff_root(s: Seq<char>)
    ensures
        split_path(s).len() == 0 <==> only_separators(s),
{
    lemma_scan_only_separators(s);
}

} // verus!
