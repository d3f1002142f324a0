//! Maps the path of a request to a file path under the documentation root.
//!
//! A request path is taken apart at every `/`. Walking its segments from the
//! root, an empty segment and `.` stay where they are, `..` goes one level
//! up and any other segment one level down. A path is served only if this
//! walk never goes above the root; otherwise it is rejected before any file
//! is looked at.

use crate::text::chars_of;
use vstd::prelude::*;
use vstd::slice::slice_subrange;

verus! {

/// The name of the file that stands for a directory.
pub const DIRECTORY_INDEX: &'static str = "index.html";

/// The segments of `path`: the pieces between its separators. A path
/// without a separator is one segment; `n` separators give `n + 1` segments,
/// some of which may be empty.
pub open spec fn segments(path: Seq<char>) -> Seq<Seq<char>>
    decreases path.len(),
{
    if path.len() == 0 {
        seq![Seq::empty()]
    } else {
        let before = segments(path.drop_last());
        if path.last() == '/' {
            before.push(Seq::empty())
        } else {
            before.drop_last().push(before.last().push(path.last()))
        }
    }
}

/// Whether a segment names the directory it stands in: it is empty or `.`.
pub open spec fn is_here(segment: Seq<char>) -> bool {
    segment.len() == 0 || segment == seq!['.']
}

/// Whether a segment names the parent directory: it is `..`.
pub open spec fn is_parent(segment: Seq<char>) -> bool {
    segment == seq!['.', '.']
}

/// How many levels below its starting point the walk along `segs` ends.
/// Negative when it ends above.
pub open spec fn depth_after(segs: Seq<Seq<char>>) -> int
    decreases segs.len(),
{
    if segs.len() == 0 {
        0
    } else {
        let before = depth_after(segs.drop_last());
        if is_here(segs.last()) {
            before
        } else if is_parent(segs.last()) {
            before - 1
        } else {
            before + 1
        }
    }
}

/// Whether the walk along `segs` is at or below its starting point after
/// every step.
pub open spec fn stays_inside(segs: Seq<Seq<char>>) -> bool {
    forall|k: int| 0 <= k <= segs.len() ==> depth_after(#[trigger] segs.take(k)) >= 0
}

pub open spec fn is_absolute(path: Seq<char>) -> bool {
    path.len() > 0 && path[0] == '/'
}

/// The request path without its one leading separator.
pub open spec fn relative_part(url_path: Seq<char>) -> Seq<char> {
    if is_absolute(url_path) {
        url_path.skip(1)
    } else {
        url_path
    }
}

/// Whether a request path stays under the root it is joined to. A path that
/// is still absolute after its leading separator is taken off would stand in
/// place of the root, so it does not.
pub open spec fn is_contained(url_path: Seq<char>) -> bool {
    let rel = relative_part(url_path);
    !is_absolute(rel) && stays_inside(segments(rel))
}

/// `rel` joined onto `base` as a path: an absolute `rel` stands in place of
/// `base`; otherwise the two are put together, with a separator between them
/// unless `base` is empty or ends in one.
pub open spec fn joined(base: Seq<char>, rel: Seq<char>) -> Seq<char> {
    if is_absolute(rel) {
        rel
    } else if base.len() == 0 || base.last() == '/' {
        base + rel
    } else {
        base + seq!['/'] + rel
    }
}

/// The file path that a request path stands for under `root`, if it stays
/// under it.
pub open spec fn resolved(root: Seq<char>, url_path: Seq<char>) -> Option<Seq<char>> {
    if is_contained(url_path) {
        Some(joined(root, relative_part(url_path)))
    } else {
        None
    }
}

/// The segments of a list put together again, with a separator between each
/// two.
pub open spec fn rejoined(segs: Seq<Seq<char>>) -> Seq<char>
    decreases segs.len(),
{
    if segs.len() == 0 {
        Seq::empty()
    } else if segs.len() == 1 {
        segs[0]
    } else {
        rejoined(segs.drop_last()) + seq!['/'] + segs.last()
    }
}

/// Taking a path apart loses nothing and keeps no separator: no segment
/// holds one, and the segments put together again are the path.
pub proof fn lemma_segments_split_at_separators(path: Seq<char>)
    ensures
        rejoined(segments(path)) == path,
        forall|i: int, j: int|
            0 <= i < segments(path).len() && 0 <= j < segments(path)[i].len() ==> segments(
                path,
            )[i][j] != '/',
    decreases path.len(),
{
    if path.len() > 0 {
        let shorter = path.drop_last();
        lemma_segments_split_at_separators(shorter);
        lemma_segments_nonempty(shorter);
        let before = segments(shorter);
        let now = segments(path);
        if path.last() == '/' {
            assert(now.drop_last() == before);
            assert(rejoined(now) =~= path);
        } else {
            let open = before.last().push(path.last());
            assert(now.last() == open);
            if before.len() == 1 {
                assert(rejoined(now) =~= path);
            } else {
                assert(now.drop_last() == before.drop_last());
                assert(rejoined(now) =~= rejoined(before).push(path.last()));
                assert(rejoined(now) =~= path);
            }
            assert forall|i: int, j: int|
                0 <= i < now.len() && 0 <= j < now[i].len() implies now[i][j] != '/' by {
                if i < now.len() - 1 {
                    assert(now[i] == before[i]);
                } else if j < before.last().len() {
                    assert(now[i][j] == before.last()[j]);
                }
            }
        }
    }
}

/// The segments of a path that are closed by a separator: all but the last.
pub open spec fn closed_segments(path: Seq<char>) -> Seq<Seq<char>> {
    segments(path).drop_last()
}

pub proof fn lemma_segments_nonempty(path: Seq<char>)
    ensures
        segments(path).len() >= 1,
    decreases path.len(),
{
    if path.len() > 0 {
        lemma_segments_nonempty(path.drop_last());
    }
}

/// The walk along a list stays inside exactly if the walk along all but its
/// last segment does and it also ends inside.
pub proof fn lemma_stays_inside_unfold(segs: Seq<Seq<char>>)
    requires
        segs.len() > 0,
    ensures
        stays_inside(segs) <==> stays_inside(segs.drop_last()) && depth_after(segs) >= 0,
{
    let shorter = segs.drop_last();
    assert(segs.take(segs.len() as int) == segs);
    if stays_inside(segs) {
        assert forall|k: int| 0 <= k <= shorter.len() implies depth_after(
            #[trigger] shorter.take(k),
        ) >= 0 by {
            assert(shorter.take(k) == segs.take(k));
        }
    }
    if stays_inside(shorter) && depth_after(segs) >= 0 {
        assert forall|k: int| 0 <= k <= segs.len() implies depth_after(#[trigger] segs.take(k))
            >= 0 by {
            if k < segs.len() {
                assert(segs.take(k) == shorter.take(k));
            }
        }
    }
}

/// Reading on never changes a segment that a separator has closed.
pub proof fn lemma_closed_segments_grow(path: Seq<char>, i: int, j: int)
    requires
        0 <= i <= j <= path.len(),
    ensures
        closed_segments(path.take(i)).len() <= closed_segments(path.take(j)).len(),
        closed_segments(path.take(j)).take(closed_segments(path.take(i)).len() as int)
            == closed_segments(path.take(i)),
    decreases j - i,
{
    lemma_segments_nonempty(path.take(i));
    if i == j {
        let closed = closed_segments(path.take(i));
        assert(closed.take(closed.len() as int) == closed);
    } else {
        lemma_closed_segments_grow(path, i, j - 1);
        lemma_segments_nonempty(path.take(j - 1));
        assert(path.take(j).drop_last() == path.take(j - 1));
        let early = closed_segments(path.take(i));
        let before = closed_segments(path.take(j - 1));
        let now = closed_segments(path.take(j));
        if path.take(j).last() == '/' {
            assert(now == segments(path.take(j - 1)));
            assert(now.take(early.len() as int) == before.take(early.len() as int));
        } else {
            assert(now == before);
        }
    }
}

/// Once the walk has gone above its starting point at a separator, the
/// whole path does not stay inside.
pub proof fn lemma_escape_is_final(path: Seq<char>, i: int)
    requires
        0 <= i <= path.len(),
        !stays_inside(closed_segments(path.take(i))),
    ensures
        !stays_inside(segments(path)),
{
    lemma_closed_segments_grow(path, i, path.len() as int);
    lemma_segments_nonempty(path);
    assert(path.take(path.len() as int) == path);
    let early = closed_segments(path.take(i));
    let all = segments(path);
    let k = choose|k: int| 0 <= k <= early.len() && depth_after(#[trigger] early.take(k)) < 0;
    assert(all.drop_last().take(early.len() as int) == early);
    assert(all.take(k) == early.take(k));
}

/// Whether the walk along the segments of `rel` stays at or below its
/// starting point.
pub fn stays_inside_root(rel: &[char]) -> (inside: bool)
    ensures
        inside == stays_inside(segments(rel@)),
{
    let mut depth: usize = 0;
    let mut length: usize = 0;
    let mut dots: bool = true;
    let mut i: usize = 0;
    proof {
        assert(rel@.take(0).len() == 0);
        assert(closed_segments(rel@.take(0)) == Seq::<Seq<char>>::empty());
        assert(closed_segments(rel@.take(0)).take(0) == closed_segments(rel@.take(0)));
    }
    while i < rel.len()
        invariant
            i <= rel.len(),
            depth <= i,
            length <= i,
            segments(rel@.take(i as int)).len() >= 1,
            depth == depth_after(closed_segments(rel@.take(i as int))),
            stays_inside(closed_segments(rel@.take(i as int))),
            length == segments(rel@.take(i as int)).last().len(),
            dots <==> forall|j: int|
                0 <= j < segments(rel@.take(i as int)).last().len() ==> segments(
                    rel@.take(i as int),
                ).last()[j] == '.',
        decreases rel.len() - i,
    {
        let c = rel[i];
        let ghost before = segments(rel@.take(i as int));
        let ghost open = before.last();
        proof {
            assert(rel@.take(i + 1).drop_last() == rel@.take(i as int));
            assert(rel@.take(i + 1).last() == c);
            lemma_segments_nonempty(rel@.take(i + 1));
        }
        if c == '/' {
            proof {
                assert(closed_segments(rel@.take(i + 1)) == before);
                assert(before.drop_last() == closed_segments(rel@.take(i as int)));
                lemma_stays_inside_unfold(before);
                if dots && length == 2 {
                    assert(open =~= seq!['.', '.']);
                }
                if dots && length == 1 {
                    assert(open =~= seq!['.']);
                }
                if !dots {
                    let j = choose|j: int| 0 <= j < open.len() && open[j] != '.';
                    assert(!is_here(open) && !is_parent(open));
                }
            }
            if length == 0 || (dots && length == 1) {
            } else if dots && length == 2 {
                if depth == 0 {
                    proof {
                        lemma_escape_is_final(rel@, i + 1);
                    }
                    return false;
                }
                depth = depth - 1;
            } else {
                depth = depth + 1;
            }
            length = 0;
            dots = true;
        } else {
            proof {
                let now = segments(rel@.take(i + 1));
                assert(now.drop_last() == before.drop_last());
                assert(now.last() == open.push(c));
                if dots && c == '.' {
                    assert forall|j: int| 0 <= j < now.last().len() implies now.last()[j]
                        == '.' by {
                        if j < open.len() {
                            assert(now.last()[j] == open[j]);
                        }
                    }
                } else if !dots {
                    let j = choose|j: int| 0 <= j < open.len() && open[j] != '.';
                    assert(now.last()[j] == open[j]);
                } else {
                    assert(now.last()[open.len() as int] == c);
                }
            }
            length = length + 1;
            dots = dots && c == '.';
        }
        i = i + 1;
    }
    proof {
        assert(rel@.take(rel.len() as int) == rel@);
        let all = segments(rel@);
        let open = all.last();
        lemma_stays_inside_unfold(all);
        if dots && length == 2 {
            assert(open =~= seq!['.', '.']);
        }
        if dots && length == 1 {
            assert(open =~= seq!['.']);
        }
        if !dots {
            let j = choose|j: int| 0 <= j < open.len() && open[j] != '.';
            assert(!is_here(open) && !is_parent(open));
        }
    }
    !(dots && length == 2 && depth == 0)
}

/// Joins the relative path `rel` onto `base`.
fn join_chars(base: &str, rel: &[char]) -> (path: String)
    requires
        !is_absolute(rel@),
    ensures
        path@ == joined(base@, rel@),
{
    let base_chars = chars_of(base);
    let mut path = String::from_str(base);
    if base_chars.len() > 0 && base_chars[base_chars.len() - 1] != '/' {
        path.push('/');
    }
    let mut i: usize = 0;
    let ghost start = path@;
    while i < rel.len()
        invariant
            i <= rel.len(),
            path@ == start + rel@.take(i as int),
        decreases rel.len() - i,
    {
        path.push(rel[i]);
        assert(rel@.take(i + 1) == rel@.take(i as int).push(rel@[i as int]));
        i = i + 1;
    }
    assert(rel@.take(rel.len() as int) == rel@);
    path
}

/// Joins the path `rel` onto `base`.
pub fn join(base: &str, rel: &str) -> (path: String)
    ensures
        path@ == joined(base@, rel@),
{
    let chars = chars_of(rel);
    if chars.len() > 0 && chars[0] == '/' {
        String::from_str(rel)
    } else {
        join_chars(base, chars.as_slice())
    }
}

/// The path of the index file of the directory `dir`.
pub fn directory_index(dir: &str) -> (path: String)
    ensures
        path@ == joined(dir@, DIRECTORY_INDEX@),
{
    join(dir, DIRECTORY_INDEX)
}

/// Resolves a request path under `root`.
///
/// One leading separator is taken off and the rest is joined onto `root`.
/// `None` means the path is rejected: it would leave the root.
pub fn resolve(root: &str, url_path: &str) -> (found: Option<String>)
    ensures
        match found {
            Some(path) => resolved(root@, url_path@) == Some(path@),
            None => resolved(root@, url_path@) is None,
        },
{
    let chars = chars_of(url_path);
    let start: usize = if chars.len() > 0 && chars[0] == '/' {
        1
    } else {
        0
    };
    let rel = slice_subrange(chars.as_slice(), start, chars.len());
    assert(rel@ == relative_part(url_path@));
    if rel.len() > 0 && rel[0] == '/' {
        return None;
    }
    if !stays_inside_root(rel) {
        return None;
    }
    Some(join_chars(root, rel))
}

/// Where a walk along `segs` ends that starts in the directory `base`,
/// both given as the names on the way down from the top. Going up from the
/// top stays at the top.
pub open spec fn walk(base: Seq<Seq<char>>, segs: Seq<Seq<char>>) -> Seq<Seq<char>>
    decreases segs.len(),
{
    if segs.len() == 0 {
        base
    } else {
        let at = walk(base, segs.drop_last());
        if is_here(segs.last()) {
            at
        } else if is_parent(segs.last()) {
            if at.len() > 0 {
                at.drop_last()
            } else {
                at
            }
        } else {
            at.push(segs.last())
        }
    }
}

/// The directory or file that `path` names, as the names on the way down.
pub open spec fn location(path: Seq<char>) -> Seq<Seq<char>> {
    walk(Seq::empty(), segments(path))
}

/// A walk in two parts is the second part walked from where the first ends.
pub proof fn lemma_walk_concat(base: Seq<Seq<char>>, first: Seq<Seq<char>>, second: Seq<Seq<char>>)
    ensures
        walk(base, first + second) == walk(walk(base, first), second),
    decreases second.len(),
{
    if second.len() == 0 {
        assert(first + second == first);
    } else {
        lemma_walk_concat(base, first, second.drop_last());
        assert((first + second).drop_last() == first + second.drop_last());
        assert((first + second).last() == second.last());
    }
}

/// A walk that stays inside ends at or below its starting directory, as
/// many levels down as its depth says.
pub proof fn lemma_walk_stays_below(base: Seq<Seq<char>>, segs: Seq<Seq<char>>)
    requires
        stays_inside(segs),
    ensures
        walk(base, segs) == base + walk(Seq::empty(), segs),
        walk(Seq::empty(), segs).len() == depth_after(segs),
    decreases segs.len(),
{
    if segs.len() == 0 {
        assert(walk(base, segs) =~= base + walk(Seq::empty(), segs));
    } else {
        lemma_stays_inside_unfold(segs);
        lemma_walk_stays_below(base, segs.drop_last());
        assert(walk(base, segs) =~= base + walk(Seq::empty(), segs));
    }
}

/// A walk that does not stay inside is, at some step, above the directory
/// it started in.
pub proof fn lemma_walk_leaves(base: Seq<Seq<char>>, segs: Seq<Seq<char>>) -> (k: int)
    requires
        base.len() > 0,
        !stays_inside(segs),
    ensures
        0 <= k <= segs.len(),
        walk(base, segs.take(k)).len() < base.len(),
    decreases segs.len(),
{
    if segs.len() == 0 {
        assert(segs.take(0) == segs);
        assert(depth_after(segs.take(0)) >= 0);
        assert(false);
        0
    } else {
        lemma_stays_inside_unfold(segs);
        let shorter = segs.drop_last();
        if !stays_inside(shorter) {
            let k = lemma_walk_leaves(base, shorter);
            assert(shorter.take(k) == segs.take(k));
            k
        } else {
            lemma_walk_stays_below(base, shorter);
            assert(shorter.take(shorter.len() as int) == shorter);
            assert(depth_after(shorter) >= 0);
            assert(segs.take(segs.len() as int) == segs);
            assert(walk(base, shorter) =~= base);
            segs.len() as int
        }
    }
}

/// The segments of two texts put together: the last segment of the first
/// and the first segment of the second become one.
pub proof fn lemma_segments_concat(first: Seq<char>, second: Seq<char>)
    ensures
        segments(first).len() >= 1,
        segments(second).len() >= 1,
        segments(first + second) == segments(first).drop_last().push(
            segments(first).last() + segments(second)[0],
        ) + segments(second).skip(1),
    decreases second.len(),
{
    lemma_segments_nonempty(first);
    lemma_segments_nonempty(second);
    if second.len() == 0 {
        assert(first + second == first);
        assert(segments(first + second) =~= segments(first).drop_last().push(
            segments(first).last() + segments(second)[0],
        ) + segments(second).skip(1));
    } else {
        let shorter = second.drop_last();
        lemma_segments_concat(first, shorter);
        lemma_segments_nonempty(shorter);
        assert((first + second).drop_last() == first + shorter);
        assert((first + second).last() == second.last());
        assert(segments(first + second) =~= segments(first).drop_last().push(
            segments(first).last() + segments(second)[0],
        ) + segments(second).skip(1));
    }
}

/// Joining a relative path onto a base names the place that the walk along
/// the relative path reaches from the base.
pub proof fn lemma_location_of_joined(base: Seq<char>, rel: Seq<char>)
    requires
        !is_absolute(rel),
    ensures
        location(joined(base, rel)) == walk(location(base), segments(rel)),
{
    lemma_segments_nonempty(base);
    lemma_segments_nonempty(rel);
    let empty = Seq::<Seq<char>>::empty();
    if base.len() == 0 {
        assert(base + rel == rel);
        assert(segments(base) == seq![Seq::<char>::empty()]);
        assert(segments(base).drop_last() == empty);
        assert(walk(empty, segments(base).drop_last()) == empty);
        assert(is_here(segments(base).last()));
        assert(location(base) == empty);
    } else if base.last() == '/' {
        lemma_segments_concat(base, rel);
        let closed = segments(base).drop_last();
        assert(segments(base).last() == Seq::<char>::empty());
        assert(segments(base).last() + segments(rel)[0] == segments(rel)[0]);
        assert(closed.push(segments(rel)[0]) + segments(rel).skip(1) =~= closed + segments(rel));
        lemma_walk_concat(empty, closed, segments(rel));
        assert(segments(base) == closed.push(Seq::empty()));
        assert(segments(base).drop_last() == closed);
        assert(walk(empty, segments(base)) == walk(empty, closed));
    } else {
        let sep = seq!['/'];
        assert(sep.drop_last() == Seq::<char>::empty());
        assert(segments(sep.drop_last()) == seq![Seq::<char>::empty()]);
        assert(segments(sep) =~= seq![Seq::<char>::empty(), Seq::<char>::empty()]);
        lemma_segments_concat(base, sep);
        assert(segments(base).last() + segments(sep)[0] == segments(base).last());
        assert(segments(base).drop_last().push(segments(base).last()) == segments(base));
        assert(segments(base + sep) =~= segments(base).push(Seq::empty()));
        lemma_segments_concat(base + sep, rel);
        assert(segments(base + sep).drop_last() == segments(base));
        assert(segments(base + sep).last() + segments(rel)[0] == segments(rel)[0]);
        assert(segments(base).push(segments(rel)[0]) + segments(rel).skip(1) =~= segments(base)
            + segments(rel));
        lemma_walk_concat(empty, segments(base), segments(rel));
    }
}

/// Whatever `resolve` gives out lies at or below the root: the place it
/// names is reached from the root by going down only.
pub proof fn lemma_resolved_is_under_root(root: Seq<char>, url_path: Seq<char>)
    requires
        is_contained(url_path),
    ensures
        resolved(root, url_path) is Some,
        location(root).is_prefix_of(location(resolved(root, url_path)->0)),
{
    let rel = relative_part(url_path);
    lemma_location_of_joined(root, rel);
    lemma_walk_stays_below(location(root), segments(rel));
    let target = location(root) + walk(Seq::empty(), segments(rel));
    assert(target.subrange(0, location(root).len() as int) =~= location(root));
}

/// A request path is rejected exactly if it is absolute once more after its
/// leading separator is taken off, or if walking it from a directory that
/// is not the top leads above that directory at some step.
pub proof fn lemma_rejected_would_escape(root: Seq<Seq<char>>, url_path: Seq<char>) -> (k: int)
    requires
        root.len() > 0,
        !is_contained(url_path),
        !is_absolute(relative_part(url_path)),
    ensures
        0 <= k <= segments(relative_part(url_path)).len(),
        walk(root, segments(relative_part(url_path)).take(k)).len() < root.len(),
{
    lemma_walk_leaves(root, segments(relative_part(url_path)))
}

} // verus!
