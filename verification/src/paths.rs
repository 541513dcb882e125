//! Paths as text: segments separated by `/`.
//!
//! The target of a run may be a path of several segments. This module says
//! which segment names the project, how an output path is formed under the
//! project root, and which relative paths stay inside that root. The library
//! itself writes `/` between segments; where it judges whether a path stays
//! inside the root it also counts `\`, which some systems read as a
//! separator.

use crate::text::{chars_of, followed_by, slice_of};
use vstd::prelude::*;

verus! {

/// The character that separates the segments of a path.
pub open spec fn separator() -> char {
    '/'
}

/// Where the segment of `s` that ends at index `end` begins: just after the
/// last separator before `end`, or at 0 where there is none.
pub open spec fn segment_start(s: Seq<char>, end: int) -> int
    decreases end,
{
    if end <= 0 {
        0
    } else if s[end - 1] == separator() {
        end
    } else {
        segment_start(s, end - 1)
    }
}

/// The segment `.`: the directory itself.
pub open spec fn current_segment() -> Seq<char> {
    seq!['.']
}

/// The segment `..`: the directory above.
pub open spec fn parent_segment() -> Seq<char> {
    seq!['.', '.']
}

/// The last segment of `s` that names something: trailing separators and
/// trailing `.` segments are passed over. There is none where nothing is
/// left, or where what is left ends in `..`.
pub open spec fn final_segment(s: Seq<char>) -> Option<Seq<char>>
    decreases s.len(),
{
    if s.len() == 0 {
        None
    } else if s.last() == separator() {
        final_segment(s.drop_last())
    } else {
        let start = segment_start(s, s.len() as int);
        let segment = s.subrange(start, s.len() as int);
        if segment == current_segment() {
            if 0 < start < s.len() {
                final_segment(s.take(start))
            } else {
                None
            }
        } else if segment == parent_segment() {
            None
        } else {
            Some(segment)
        }
    }
}

/// The name that templates see for a project at `project_name`: the final
/// segment of that path, and the whole text where the path has none.
pub open spec fn spec_display_name(project_name: Seq<char>) -> Seq<char> {
    match final_segment(project_name) {
        Some(segment) => segment,
        None => project_name,
    }
}

/// A segment that names an entry: not empty, free of separators, and neither
/// `.` nor `..`.
pub open spec fn is_plain_segment(segment: Seq<char>) -> bool {
    &&& segment.len() > 0
    &&& !segment.contains(separator())
    &&& segment != current_segment()
    &&& segment != parent_segment()
}

/// `relative` placed under `root`: one separator between them, unless `root`
/// is empty or already ends in one.
pub open spec fn spec_join(root: Seq<char>, relative: Seq<char>) -> Seq<char> {
    if root.len() == 0 || root.last() == separator() {
        root + relative
    } else {
        root + seq![separator()] + relative
    }
}

/// The directory that holds `path`: what stands before its last separator,
/// and nothing where it has none.
pub open spec fn spec_parent(path: Seq<char>) -> Seq<char> {
    let start = segment_start(path, path.len() as int);
    if start == 0 {
        Seq::empty()
    } else {
        path.take(start - 1)
    }
}

/// A character that some system reads as a separator of segments: `/`, and
/// `\` as well.
pub open spec fn is_divider(c: char) -> bool {
    c == '/' || c == '\\'
}

/// A `..` segment of `path` begins at index `i`, on some system's reading of
/// the path: two dots with a divider or an end of the path on either side.
pub open spec fn is_parent_segment_at(path: Seq<char>, i: int) -> bool {
    &&& 0 <= i
    &&& i + 2 <= path.len()
    &&& path[i] == '.'
    &&& path[i + 1] == '.'
    &&& (i == 0 || is_divider(path[i - 1]))
    &&& (i + 2 == path.len() || is_divider(path[i + 2]))
}

/// Some segment of `path` is `..`.
pub open spec fn has_parent_segment(path: Seq<char>) -> bool {
    exists|i: int| is_parent_segment_at(path, i)
}

/// A relative path that cannot lead out of the directory it is joined to,
/// whichever of the two dividers a system reads: it names something, does not
/// start at the file system's root, and never steps up to a parent directory.
pub open spec fn stays_inside(relative: Seq<char>) -> bool {
    &&& relative.len() > 0
    &&& !is_divider(relative[0])
    &&& !has_parent_segment(relative)
}

/// The start of a segment lies at or before its end, follows a separator
/// unless it is 0, and no separator stands between the two.
pub proof fn lemma_segment_start(s: Seq<char>, end: int)
    requires
        0 <= end <= s.len(),
    ensures
        0 <= segment_start(s, end) <= end,
        segment_start(s, end) > 0 ==> s[segment_start(s, end) - 1] == separator(),
        forall|k: int| segment_start(s, end) <= k < end ==> s[k] != separator(),
        end > 0 && s[end - 1] != separator() ==> segment_start(s, end) < end,
    decreases end,
{
    if end > 0 && s[end - 1] != separator() {
        lemma_segment_start(s, end - 1);
    }
}

/// Where a segment begins depends only on the text before its end.
pub proof fn lemma_segment_start_of_prefix(s: Seq<char>, len: int, end: int)
    requires
        0 <= end <= len <= s.len(),
    ensures
        segment_start(s.take(len), end) == segment_start(s, end),
    decreases end,
{
    if end > 0 && s[end - 1] != separator() {
        lemma_segment_start_of_prefix(s, len, end - 1);
    }
}

/// Where the segment of `s` that ends at `end` begins.
fn segment_begin(s: &Vec<char>, end: usize) -> (start: usize)
    requires
        end <= s.len(),
    ensures
        start == segment_start(s@, end as int),
{
    let mut start: usize = end;
    while start > 0 && s[start - 1] != '/'
        invariant
            start <= end <= s.len(),
            segment_start(s@, end as int) == segment_start(s@, start as int),
        decreases start,
    {
        start -= 1;
    }
    start
}

/// The name that templates see for a project at `project_name`.
pub fn display_name(project_name: &str) -> (name: String)
    ensures
        name@ == spec_display_name(project_name@),
{
    let cs = chars_of(project_name);
    let mut end: usize = cs.len();
    assert(cs@.take(end as int) =~= cs@);
    loop
        invariant
            cs@ == project_name@,
            end <= cs.len(),
            final_segment(cs@) == final_segment(cs@.take(end as int)),
        decreases end,
    {
        let ghost head = cs@.take(end as int);
        if end == 0 {
            return project_name.to_owned();
        }
        if cs[end - 1] == '/' {
            assert(head.drop_last() =~= cs@.take(end - 1));
            end -= 1;
            continue ;
        }
        let start = segment_begin(&cs, end);
        proof {
            lemma_segment_start(cs@, end as int);
            lemma_segment_start_of_prefix(cs@, end as int, end as int);
            assert(head.subrange(start as int, end as int) =~= cs@.subrange(
                start as int,
                end as int,
            ));
            assert(head.take(start as int) =~= cs@.take(start as int));
        }
        let ghost segment = cs@.subrange(start as int, end as int);
        if end - start == 1 && cs[start] == '.' {
            assert(segment =~= current_segment());
            if start == 0 {
                return project_name.to_owned();
            }
            end = start;
            continue ;
        }
        if end - start == 2 && cs[start] == '.' && cs[start + 1] == '.' {
            assert(segment =~= parent_segment());
            return project_name.to_owned();
        }
        proof {
            if segment == current_segment() {
                assert(segment.len() == 1 && segment[0] == '.');
            }
            if segment == parent_segment() {
                assert(segment.len() == 2 && segment[0] == '.' && segment[1] == '.');
            }
        }
        return slice_of(project_name, start, end);
    }
}

/// `relative` placed under `root`.
pub fn join(root: &str, relative: &str) -> (path: String)
    ensures
        path@ == spec_join(root@, relative@),
{
    let rs = chars_of(root);
    if rs.len() == 0 || rs[rs.len() - 1] == '/' {
        followed_by(root, relative)
    } else {
        proof {
            reveal_strlit("/");
            assert("/"@ =~= seq![separator()]);
        }
        let mut path = followed_by(root, "/");
        path.append(relative);
        path
    }
}

/// The directory that holds `path`.
pub fn parent_dir(path: &str) -> (parent: String)
    ensures
        parent@ == spec_parent(path@),
{
    let cs = chars_of(path);
    let start = segment_begin(&cs, cs.len());
    proof {
        lemma_segment_start(cs@, cs@.len() as int);
    }
    if start == 0 {
        String::new()
    } else {
        slice_of(path, 0, start - 1)
    }
}

/// Whether some system reads `c` as a separator of segments.
pub fn divider(c: char) -> (found: bool)
    ensures
        found == is_divider(c),
{
    c == '/' || c == '\\'
}

/// Whether a `..` segment of `path` begins at index `i`.
pub fn parent_segment_at(path: &Vec<char>, i: usize) -> (found: bool)
    ensures
        found == is_parent_segment_at(path@, i as int),
{
    if path.len() < 2 || i > path.len() - 2 {
        return false;
    }
    path[i] == '.' && path[i + 1] == '.' && (i == 0 || divider(path[i - 1])) && (i + 2
        == path.len() || divider(path[i + 2]))
}

/// Whether `relative` cannot lead out of the directory it is joined to.
pub fn is_contained(relative: &str) -> (contained: bool)
    ensures
        contained == stays_inside(relative@),
{
    let cs = chars_of(relative);
    if cs.len() == 0 || divider(cs[0]) {
        return false;
    }
    if cs.len() < 2 {
        assert(forall|i: int| !is_parent_segment_at(cs@, i));
        return true;
    }
    let last: usize = cs.len() - 2;
    let mut i: usize = 0;
    while i < last
        invariant
            cs@ == relative@,
            last == cs.len() - 2,
            i <= last,
            forall|j: int| 0 <= j < i ==> !is_parent_segment_at(cs@, j),
        decreases last - i,
    {
        if parent_segment_at(&cs, i) {
            assert(is_parent_segment_at(cs@, i as int));
            return false;
        }
        i += 1;
    }
    let found = parent_segment_at(&cs, last);
    assert(found == has_parent_segment(cs@)) by {
        if found {
            assert(is_parent_segment_at(cs@, last as int));
        }
    }
    !found
}

/// The name of a project is the last segment of its path, whatever directory
/// the path puts before it: for every `directory` and every plain segment
/// `leaf`, the display name of `directory/leaf` is `leaf`, and so is that of
/// `leaf` alone.
pub proof fn law_display_name_is_final_segment(directory: Seq<char>, leaf: Seq<char>)
    requires
        is_plain_segment(leaf),
    ensures
        spec_display_name(directory + seq![separator()] + leaf) == leaf,
        spec_display_name(leaf) == leaf,
{
    lemma_final_segment_of_nested(directory + seq![separator()], leaf);
    lemma_final_segment_of_nested(Seq::empty(), leaf);
    assert(Seq::<char>::empty() + leaf =~= leaf);
}

/// A plain segment that follows a separator, or nothing, is the final segment.
proof fn lemma_final_segment_of_nested(before: Seq<char>, leaf: Seq<char>)
    requires
        is_plain_segment(leaf),
        before.len() == 0 || before.last() == separator(),
    ensures
        final_segment(before + leaf) == Some(leaf),
{
    let s = before + leaf;
    let n = s.len() as int;
    assert(s.last() == leaf.last());
    assert(leaf.contains(leaf.last()));
    lemma_segment_start(s, n);
    let start = segment_start(s, n);
    assert forall|k: int| before.len() <= k < n implies s[k] != separator() by {
        assert(s[k] == leaf[k - before.len()]);
        assert(leaf.contains(leaf[k - before.len()]));
    }
    lemma_segment_start_is(s, n, before.len() as int);
    assert(s.subrange(start, n) =~= leaf);
}

/// The start of a segment is the one index that follows a separator, or is
/// 0, and has no separator between itself and the end.
proof fn lemma_segment_start_is(s: Seq<char>, end: int, start: int)
    requires
        0 <= start <= end <= s.len(),
        start == 0 || s[start - 1] == separator(),
        forall|k: int| start <= k < end ==> s[k] != separator(),
    ensures
        segment_start(s, end) == start,
    decreases end - start,
{
    if start < end {
        lemma_segment_start_is(s, end - 1, start);
    }
}

/// The display name of a path that has a final segment holds no separator.
pub proof fn law_display_name_is_one_segment(project_name: Seq<char>)
    requires
        final_segment(project_name) is Some,
    ensures
        !spec_display_name(project_name).contains(separator()),
        spec_display_name(project_name).len() > 0,
    decreases project_name.len(),
{
    let s = project_name;
    if s.last() == separator() {
        law_display_name_is_one_segment(s.drop_last());
    } else {
        let n = s.len() as int;
        lemma_segment_start(s, n);
        let start = segment_start(s, n);
        let segment = s.subrange(start, n);
        if segment == current_segment() {
            law_display_name_is_one_segment(s.take(start));
        } else {
            assert forall|k: int| 0 <= k < segment.len() implies segment[k] != separator() by {
                assert(segment[k] == s[start + k]);
            }
        }
    }
}

} // verus!
