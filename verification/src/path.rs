//! Paths as sequences of bytes.
//!
//! A path is split into components by `/`. A leading `/` is the root, and a leading `.` component
//! stands for the current directory. Everywhere else empty components and `.` components mean
//! nothing, and they are dropped from the end of a path before its last component is looked at.
//! A path need not be valid UTF-8.
//!
//! Where the operating system knows another separator, a path is to be written with `/` before it
//! is handed over.

use vstd::prelude::*;

verus! {

/// The separator of components, `/`.
pub const SEPARATOR: u8 = 47;

/// The full stop, `.`.
pub const DOT: u8 = 46;

/// The length of what stands before the components proper: the root `/`, or a leading `.` that
/// is a component of its own.
pub open spec fn body_start(path: Seq<u8>) -> nat {
    if path.len() > 0 && path[0] == SEPARATOR {
        1
    } else if path.len() > 0 && path[0] == DOT && (path.len() == 1 || path[1] == SEPARATOR) {
        1
    } else {
        0
    }
}

/// Where the last segment of `path` starts: behind the last separator at or after `from`, or at
/// `from` where there is none.
pub open spec fn segment_start(path: Seq<u8>, from: nat) -> int
    decreases path.len(),
{
    if path.len() <= from {
        from as int
    } else if path.last() == SEPARATOR {
        path.len() as int
    } else {
        segment_start(path.drop_last(), from)
    }
}

/// Whether a segment is a component: it is neither empty nor `.`.
pub open spec fn is_component(segment: Seq<u8>) -> bool {
    segment.len() > 0 && segment != seq![DOT]
}

/// The last segment of a path that has something behind its start.
pub open spec fn last_segment(path: Seq<u8>) -> Seq<u8> {
    path.skip(segment_start(path, body_start(path)))
}

/// `path` without its last segment and without the separator in front of that segment.
pub open spec fn without_last_segment(path: Seq<u8>) -> Seq<u8> {
    let from = body_start(path);
    let start = segment_start(path, from);
    path.take(if start > from {
        start - 1
    } else {
        from as int
    })
}

/// A segment starts between `from` and the end of the path.
pub proof fn lemma_segment_start_range(path: Seq<u8>, from: nat)
    requires
        from <= path.len(),
    ensures
        from <= segment_start(path, from) <= path.len(),
        segment_start(path, from) > from ==> path[segment_start(path, from) - 1] == SEPARATOR,
        forall|i: int| segment_start(path, from) <= i < path.len() ==> path[i] != SEPARATOR,
    decreases path.len(),
{
    if path.len() > from && path.last() != SEPARATOR {
        lemma_segment_start_range(path.drop_last(), from);
        assert forall|i: int| segment_start(path, from) <= i < path.len() implies path[i]
            != SEPARATOR by {
            if i < path.len() - 1 {
                assert(path.drop_last()[i] == path[i]);
            }
        }
    }
}

/// The components of `path` behind its root or its leading `.`, in order.
pub open spec fn components(path: Seq<u8>) -> Seq<Seq<u8>>
    decreases path.len(),
{
    if path.len() <= body_start(path) {
        Seq::empty()
    } else {
        proof {
            lemma_segment_start_range(path, body_start(path));
        }
        let front = components(without_last_segment(path));
        if is_component(last_segment(path)) {
            front.push(last_segment(path))
        } else {
            front
        }
    }
}

/// `path` without the separators and `.` components at its end.
pub open spec fn trimmed(path: Seq<u8>) -> Seq<u8>
    decreases path.len(),
{
    if path.len() <= body_start(path) || is_component(last_segment(path)) {
        path
    } else {
        proof {
            lemma_segment_start_range(path, body_start(path));
        }
        trimmed(without_last_segment(path))
    }
}

/// The last component of a path, unless there is none or it is `..`.
pub open spec fn file_name(path: Seq<u8>) -> Option<Seq<u8>> {
    let all = components(path);
    if all.len() > 0 && all.last() != seq![DOT, DOT] {
        Some(all.last())
    } else {
        None
    }
}

/// The path without its last component; a lone leading `.` counts as one.
///
/// The root and the empty path have no parent.
pub open spec fn parent(path: Seq<u8>) -> Option<Seq<u8>> {
    if components(path).len() > 0 {
        Some(trimmed(without_last_segment(trimmed(path))))
    } else if path.len() > 0 && path[0] != SEPARATOR {
        Some(Seq::empty())
    } else {
        None
    }
}

/// The path that `name` denotes when it is looked up in `dir`.
pub open spec fn join(dir: Seq<u8>, name: Seq<u8>) -> Seq<u8> {
    if name.len() > 0 && name[0] == SEPARATOR {
        name
    } else if dir.len() > 0 && dir.last() != SEPARATOR {
        dir.push(SEPARATOR) + name
    } else {
        dir + name
    }
}

/// A single component that names a file: not `.`, not `..`, and with no separator in it.
pub open spec fn is_name(name: Seq<u8>) -> bool {
    &&& is_component(name)
    &&& name != seq![DOT, DOT]
    &&& forall|i: int| 0 <= i < name.len() ==> name[i] != SEPARATOR
}

// ---------------------------------------------------------------------------
// Facts
// ---------------------------------------------------------------------------

/// What is left when the last segment is taken off is shorter, and starts like the whole.
proof fn lemma_without_last_segment(path: Seq<u8>)
    requires
        path.len() > body_start(path),
    ensures
        body_start(path) <= without_last_segment(path).len() < path.len(),
        body_start(without_last_segment(path)) == body_start(path),
        body_start(path) == 1 ==> without_last_segment(path)[0] == path[0],
{
    lemma_segment_start_range(path, body_start(path));
}

/// Trimming keeps the components and leaves the last of them, if any, at the end.
proof fn lemma_trimmed(path: Seq<u8>)
    ensures
        components(trimmed(path)) == components(path),
        trimmed(trimmed(path)) == trimmed(path),
        trimmed(path).len() <= path.len(),
        body_start(trimmed(path)) == body_start(path) <= trimmed(path).len() || path.len() == 0,
        body_start(path) == 1 ==> trimmed(path)[0] == path[0],
        components(path).len() > 0 <==> trimmed(path).len() > body_start(path),
        components(path).len() > 0 ==> components(path).last() == last_segment(trimmed(path)),
        components(path).len() > 0 ==> is_component(last_segment(trimmed(path))),
        components(path).len() > 0 ==> components(without_last_segment(trimmed(path)))
            == components(path).drop_last(),
    decreases path.len(),
{
    if path.len() > body_start(path) {
        lemma_without_last_segment(path);
        if is_component(last_segment(path)) {
            assert(components(path).drop_last() =~= components(without_last_segment(path)));
        } else {
            lemma_trimmed(without_last_segment(path));
        }
    }
}

/// The last segment of a path is what stands behind its last separator.
proof fn lemma_segment_start_at(path: Seq<u8>, from: nat, start: int)
    requires
        from <= start <= path.len(),
        start > from ==> path[start - 1] == SEPARATOR,
        forall|i: int| start <= i < path.len() ==> path[i] != SEPARATOR,
    ensures
        segment_start(path, from) == start,
    decreases path.len(),
{
    if path.len() > start {
        assert(path.last() != SEPARATOR);
        assert(path.drop_last().len() >= start);
        lemma_segment_start_at(path.drop_last(), from, start);
    }
}

/// The file name of a path is a name.
pub proof fn lemma_file_name_is_name(path: Seq<u8>)
    ensures
        file_name(path) matches Some(name) ==> is_name(name) && parent(path) is Some,
{
    let whole = trimmed(path);
    lemma_trimmed(path);
    if components(path).len() > 0 {
        lemma_segment_start_range(whole, body_start(whole));
        let segment = last_segment(whole);
        let start = segment_start(whole, body_start(whole));
        assert forall|i: int| 0 <= i < segment.len() implies segment[i] != SEPARATOR by {
            assert(segment[i] == whole[start + i]);
        }
    }
}

/// A relative path that does not start with a `.` of its own has a component.
proof fn lemma_a_relative_path_has_a_component(path: Seq<u8>)
    requires
        path.len() > 0,
        path[0] != SEPARATOR,
        body_start(path) == 0,
    ensures
        components(path).len() > 0,
    decreases path.len(),
{
    lemma_segment_start_range(path, 0);
    if !is_component(last_segment(path)) {
        lemma_without_last_segment(path);
        if segment_start(path, 0) == 0 {
            assert(last_segment(path) =~= path);
        } else {
            lemma_a_relative_path_has_a_component(without_last_segment(path));
        }
    }
}

/// A path whose parent is empty either has no component, and starts with a `.` of its own, or does
/// not start with one.
pub proof fn lemma_a_lone_component(path: Seq<u8>)
    requires
        parent(path) == Some(Seq::<u8>::empty()),
    ensures
        path.len() > 0,
        components(path).len() == 0 <==> path[0] == DOT && (path.len() == 1 || path[1]
            == SEPARATOR),
{
    lemma_trimmed(path);
    if components(path).len() == 0 {
        if body_start(path) == 0 {
            lemma_a_relative_path_has_a_component(path);
        }
    } else {
        let whole = trimmed(path);
        lemma_without_last_segment(whole);
        lemma_trimmed(without_last_segment(whole));
    }
}

/// The parent of a path has the components of the path but the last, and it is absolute exactly
/// if the path is; the file name of a path is its last component.
pub proof fn law_parent_and_file_name_part_a_path(path: Seq<u8>)
    requires
        components(path).len() > 0,
    ensures
        parent(path) is Some,
        components(parent(path)->0) == components(path).drop_last(),
        trimmed(parent(path)->0) == parent(path)->0,
        parent(path)->0.len() > 0 && parent(path)->0[0] == SEPARATOR <==> path[0] == SEPARATOR,
        file_name(path) matches Some(name) ==> components(path) == components(
            parent(path)->0,
        ).push(name),
{
    let whole = trimmed(path);
    lemma_trimmed(path);
    lemma_without_last_segment(whole);
    let front = without_last_segment(whole);
    lemma_trimmed(front);
    assert(components(path) =~= components(path).drop_last().push(components(path).last()));
    if body_start(path) == 0 {
        assert(path[0] != SEPARATOR);
        assert(body_start(parent(path)->0) == 0);
    }
}

/// Looking a name up in a directory and taking the result apart gives the directory and the name
/// back. Every parent of a path is such a directory.
pub proof fn law_join_is_undone_by_parent_and_file_name(dir: Seq<u8>, name: Seq<u8>)
    requires
        trimmed(dir) == dir,
        is_name(name),
    ensures
        parent(join(dir, name)) == Some(dir),
        file_name(join(dir, name)) == Some(name),
{
    let path = join(dir, name);
    let from = body_start(path);
    if dir.len() == 0 {
        assert(path =~= name);
        if name.len() == 1 && name[0] == DOT {
            assert(name =~= seq![DOT]);
        }
        lemma_segment_start_at(path, 0, 0);
        assert(without_last_segment(path) =~= dir);
        assert(last_segment(path) =~= name);
    } else if dir.last() == SEPARATOR {
        if dir.len() > body_start(dir) {
            lemma_segment_start_at(dir, body_start(dir), dir.len() as int);
            assert(last_segment(dir).len() == 0);
            lemma_without_last_segment(dir);
            lemma_trimmed(without_last_segment(dir));
            assert(false);
        }
        assert(dir.len() == 1);
        lemma_segment_start_at(path, 1, 1);
        assert(without_last_segment(path) =~= dir);
        assert(last_segment(path) =~= name);
    } else {
        assert(path[0] == dir[0]);
        assert(path[dir.len() as int] == SEPARATOR);
        assert(dir.len() > 1 ==> path[1] == dir[1]);
        assert(from == body_start(dir));
        lemma_segment_start_at(path, from, dir.len() as int + 1);
        assert(without_last_segment(path) =~= dir);
        assert(last_segment(path) =~= name);
    }
    assert(trimmed(path) == path);
    assert(components(path) == components(dir).push(name));
}

/// To look a component up in a directory, whatever the bytes of either, adds that component behind
/// those of the directory; it is the file name of the result unless it is `..`.
pub proof fn law_a_joined_name_is_one_more_component(dir: Seq<u8>, segment: Seq<u8>)
    requires
        segment.len() > 0,
        segment != seq![DOT],
        forall|i: int| 0 <= i < segment.len() ==> segment[i] != SEPARATOR,
    ensures
        components(Seq::empty()) == Seq::<Seq<u8>>::empty(),
        components(join(dir, segment)) == components(dir).push(segment),
        segment != seq![DOT, DOT] ==> file_name(join(dir, segment)) == Some(segment),
        segment == seq![DOT, DOT] ==> file_name(join(dir, segment)) is None,
        parent(join(dir, segment)) == Some(trimmed(dir)),
{
    let path = join(dir, segment);
    let from = body_start(path);
    if segment.len() == 1 && segment[0] == DOT {
        assert(segment =~= seq![DOT]);
    }
    if dir.len() == 0 {
        assert(path =~= segment);
        lemma_segment_start_at(path, 0, 0);
        assert(without_last_segment(path) =~= dir);
    } else if dir.last() == SEPARATOR {
        assert(path[0] == dir[0]);
        assert(dir.len() > 1 ==> path[1] == dir[1]);
        lemma_segment_start_at(path, from, dir.len() as int);
        if dir.len() > 1 {
            lemma_a_separator_at_the_end(dir.drop_last());
            assert(dir.drop_last().push(SEPARATOR) =~= dir);
            assert(without_last_segment(path) =~= dir.drop_last());
        } else {
            assert(without_last_segment(path) =~= dir);
        }
    } else {
        assert(path[0] == dir[0]);
        assert(path[dir.len() as int] == SEPARATOR);
        assert(dir.len() > 1 ==> path[1] == dir[1]);
        lemma_segment_start_at(path, from, dir.len() as int + 1);
        assert(without_last_segment(path) =~= dir);
    }
    assert(last_segment(path) =~= segment);
    assert(trimmed(path) == path);
}

/// A separator at the end of a path means nothing.
proof fn lemma_a_separator_at_the_end(path: Seq<u8>)
    requires
        path.len() > 0,
    ensures
        components(path.push(SEPARATOR)) == components(path),
        trimmed(path.push(SEPARATOR)) == trimmed(path),
{
    let longer = path.push(SEPARATOR);
    let from = body_start(longer);
    assert(path.len() > 1 ==> longer[1] == path[1]);
    assert(longer[0] == path[0]);
    lemma_segment_start_at(longer, from, longer.len() as int);
    assert(last_segment(longer).len() == 0);
    assert(without_last_segment(longer) =~= path);
}

/// A separator, or a `.` behind a separator, at the end of a path means nothing: the components,
/// the file name and the parent stay the same.
pub proof fn law_separators_and_dots_at_the_end_mean_nothing(path: Seq<u8>)
    requires
        path.len() > 0,
    ensures
        components(path.push(SEPARATOR)) == components(path),
        file_name(path.push(SEPARATOR)) == file_name(path),
        parent(path.push(SEPARATOR)) == parent(path),
        components(path.push(SEPARATOR).push(DOT)) == components(path),
        file_name(path.push(SEPARATOR).push(DOT)) == file_name(path),
        parent(path.push(SEPARATOR).push(DOT)) == parent(path),
{
    let longer = path.push(SEPARATOR);
    let dotted = longer.push(DOT);
    let from = body_start(dotted);
    lemma_a_separator_at_the_end(path);
    assert(dotted[0] == path[0]);
    assert(longer[0] == path[0]);
    assert(dotted[1] == longer[1]);
    assert(dotted[path.len() as int] == SEPARATOR);
    lemma_segment_start_at(dotted, from, path.len() as int + 1);
    assert(last_segment(dotted) =~= seq![DOT]);
    assert(without_last_segment(dotted) =~= path);
}

/// The root, the current directory and the empty path have no components and no file name; of these
/// the current directory alone has a parent, which is empty.
pub proof fn law_paths_without_components(path: Seq<u8>)
    requires
        path == Seq::<u8>::empty() || path == seq![SEPARATOR] || path == seq![DOT],
    ensures
        components(path).len() == 0,
        file_name(path) is None,
        path == seq![DOT] ==> parent(path) == Some(Seq::<u8>::empty()),
        path != seq![DOT] ==> parent(path) is None,
{
    if path == seq![SEPARATOR] {
        assert(path[0] == SEPARATOR);
    }
    if path == seq![DOT] {
        assert(path[0] == DOT);
    }
}

/// The path that a name denotes in a directory is the directory, a separator if the directory needs
/// one, and the name; a name that is absolute denotes itself.
pub proof fn law_joining_puts_the_name_behind_the_directory(dir: Seq<u8>, name: Seq<u8>)
    ensures
        name.len() > 0 && name[0] == SEPARATOR ==> join(dir, name) == name,
        !(name.len() > 0 && name[0] == SEPARATOR) ==> {
            let between = join(dir, name).len() - dir.len() - name.len();
            &&& between == 0 || between == 1
            &&& between == 1 <==> dir.len() > 0 && dir.last() != SEPARATOR
            &&& join(dir, name).take(dir.len() as int) == dir
            &&& join(dir, name).skip(dir.len() + between) == name
            &&& between == 1 ==> join(dir, name)[dir.len() as int] == SEPARATOR
        },
{
    if !(name.len() > 0 && name[0] == SEPARATOR) {
        let between = join(dir, name).len() - dir.len() - name.len();
        assert(join(dir, name).take(dir.len() as int) =~= dir);
        assert(join(dir, name).skip(dir.len() + between) =~= name);
    }
}

/// Two steps up are two components.
pub proof fn lemma_two_steps_up()
    ensures
        components(seq![DOT, DOT, SEPARATOR, DOT, DOT]) == seq![seq![DOT, DOT], seq![DOT, DOT]],
{
    let up = seq![DOT, DOT];
    let none = Seq::<u8>::empty();
    assert(up[0] == DOT && up[1] == DOT && up.len() == 2);
    law_a_joined_name_is_one_more_component(none, up);
    assert(join(none, up) =~= up);
    assert(components(up) =~= seq![up]);
    law_a_joined_name_is_one_more_component(up, up);
    assert(join(up, up) =~= seq![DOT, DOT, SEPARATOR, DOT, DOT]);
    assert(components(up).push(up) =~= seq![up, up]);
}

// ---------------------------------------------------------------------------
// Operations
// ---------------------------------------------------------------------------

/// Copies the first `len` bytes of a path.
fn prefix(path: &[u8], len: usize) -> (copy: Vec<u8>)
    requires
        len <= path@.len(),
    ensures
        copy@ == path@.take(len as int),
{
    range(path, 0, len)
}

/// Copies the bytes `start..end` of a path.
fn range(path: &[u8], start: usize, end: usize) -> (copy: Vec<u8>)
    requires
        start <= end <= path@.len(),
    ensures
        copy@ == path@.subrange(start as int, end as int),
{
    let mut copy: Vec<u8> = Vec::new();
    let mut i: usize = start;
    while i < end
        invariant
            start <= i <= end <= path@.len(),
            copy@ == path@.subrange(start as int, i as int),
        decreases end - i,
    {
        copy.push(path[i]);
        assert(path@.subrange(start as int, i + 1) =~= path@.subrange(start as int, i as int).push(
            path@[i as int],
        ));
        i = i + 1;
    }
    copy
}

fn find_body_start(path: &[u8], len: usize) -> (start: usize)
    requires
        len <= path@.len(),
    ensures
        start == body_start(path@.take(len as int)),
        start <= len,
{
    if len > 0 && path[0] == SEPARATOR {
        1
    } else if len > 0 && path[0] == DOT && (len == 1 || path[1] == SEPARATOR) {
        1
    } else {
        0
    }
}

fn find_segment_start(path: &[u8], len: usize, from: usize) -> (start: usize)
    requires
        from <= len <= path@.len(),
    ensures
        start == segment_start(path@.take(len as int), from as nat),
        from <= start <= len,
{
    let mut end: usize = len;
    while end > from && path[end - 1] != SEPARATOR
        invariant
            from <= end <= len <= path@.len(),
            segment_start(path@.take(end as int), from as nat) == segment_start(
                path@.take(len as int),
                from as nat,
            ),
        decreases end,
    {
        assert(path@.take(end as int).drop_last() =~= path@.take(end - 1));
        end = end - 1;
    }
    end
}

/// The length of the prefix of `path` that remains when separators and `.` components are taken
/// off the end of its first `len` bytes.
fn find_trimmed(path: &[u8], len: usize) -> (end: usize)
    requires
        len <= path@.len(),
    ensures
        end <= len,
        path@.take(end as int) == trimmed(path@.take(len as int)),
{
    let mut end: usize = len;
    loop
        invariant
            end <= len <= path@.len(),
            trimmed(path@.take(end as int)) == trimmed(path@.take(len as int)),
        decreases end,
    {
        let ghost whole = path@.take(end as int);
        let from = find_body_start(path, end);
        if end == from {
            return end;
        }
        let start = find_segment_start(path, end, from);
        let ghost segment = last_segment(whole);
        assert(segment =~= path@.subrange(start as int, end as int));
        if !(start == end || (start + 1 == end && path[start] == DOT)) {
            assert(segment.len() == 1 ==> segment[0] != DOT);
            return end;
        }
        assert(!is_component(segment)) by {
            if segment.len() > 0 {
                assert(segment =~= seq![DOT]);
            }
        }
        let next: usize = if start > from {
            start - 1
        } else {
            from
        };
        assert(without_last_segment(whole) =~= path@.take(next as int));
        end = next;
    }
}

/// Finds the parent of a path.
pub fn parent_dir(path: &[u8]) -> (dir: Option<Vec<u8>>)
    ensures
        match dir {
            Some(bytes) => parent(path@) == Some(bytes@),
            None => parent(path@) is None,
        },
{
    let end = find_trimmed(path, path.len());
    let ghost whole = path@.take(end as int);
    assert(path@.take(path@.len() as int) =~= path@);
    proof {
        lemma_trimmed(path@);
    }
    let from = find_body_start(path, end);
    if end > from {
        let start = find_segment_start(path, end, from);
        let next: usize = if start > from {
            start - 1
        } else {
            from
        };
        assert(without_last_segment(whole) =~= path@.take(next as int));
        let len = find_trimmed(path, next);
        Some(prefix(path, len))
    } else if path.len() > 0 && path[0] != SEPARATOR {
        let empty: Vec<u8> = Vec::new();
        Some(empty)
    } else {
        None
    }
}

/// Finds the file name of a path.
pub fn base_name(path: &[u8]) -> (name: Option<Vec<u8>>)
    ensures
        match name {
            Some(bytes) => file_name(path@) == Some(bytes@),
            None => file_name(path@) is None,
        },
{
    let end = find_trimmed(path, path.len());
    let ghost whole = path@.take(end as int);
    assert(path@.take(path@.len() as int) =~= path@);
    proof {
        lemma_trimmed(path@);
    }
    let from = find_body_start(path, end);
    if end <= from {
        return None;
    }
    let start = find_segment_start(path, end, from);
    let name = range(path, start, end);
    assert(name@ =~= last_segment(whole));
    if name.len() == 2 && name[0] == DOT && name[1] == DOT {
        assert(name@ =~= seq![DOT, DOT]);
        None
    } else {
        Some(name)
    }
}

/// Looks a name up in a directory.
pub fn join_paths(dir: &[u8], name: &[u8]) -> (path: Vec<u8>)
    ensures
        path@ == join(dir@, name@),
{
    if name.len() > 0 && name[0] == SEPARATOR {
        let path = prefix(name, name.len());
        assert(path@ =~= name@);
        return path;
    }
    let mut path = prefix(dir, dir.len());
    assert(path@ =~= dir@);
    if dir.len() > 0 && dir[dir.len() - 1] != SEPARATOR {
        path.push(SEPARATOR);
    }
    let ghost front = path@;
    let mut i: usize = 0;
    while i < name.len()
        invariant
            i <= name@.len(),
            path@ == front + name@.take(i as int),
        decreases name@.len() - i,
    {
        path.push(name[i]);
        assert(name@.take(i + 1) =~= name@.take(i as int).push(name@[i as int]));
        i = i + 1;
    }
    assert(name@.take(i as int) =~= name@);
    path
}

// ---------------------------------------------------------------------------
// Paths as text
// ---------------------------------------------------------------------------

/// What `String::from_utf8_lossy` makes of bytes that are not valid UTF-8.
pub uninterp spec fn lossy_text(bytes: Seq<u8>) -> Seq<char>;

/// The text that stands for a path, or for a part of one, in messages, in arguments and in the
/// names of files beside it. Valid UTF-8 stands for itself.
pub open spec fn displayed(bytes: Seq<u8>) -> Seq<char> {
    if vstd::utf8::valid_utf8(bytes) {
        vstd::utf8::decode_utf8(bytes)
    } else {
        lossy_text(bytes)
    }
}

/// Decodes bytes as UTF-8 and puts U+FFFD in the place of what is invalid, by
/// `String::from_utf8_lossy`.
///
/// Trusted: valid UTF-8 is decoded as it is; for all other bytes the text depends on the bytes
/// alone. Bytes come out as some text, and a separator only comes out where one went in. How many
/// replacement characters an invalid sequence gives is not stated.
#[verifier::external_body]
fn decode_lossy(bytes: &[u8]) -> (text: String)
    ensures
        vstd::utf8::valid_utf8(bytes@) ==> text@ == vstd::utf8::decode_utf8(bytes@),
        !vstd::utf8::valid_utf8(bytes@) ==> text@ == lossy_text(bytes@),
        bytes@.len() > 0 ==> text@.len() > 0,
        !bytes@.contains(SEPARATOR) ==> !text@.contains('/'),
{
    String::from_utf8_lossy(bytes).into_owned()
}

/// Turns a path, or a part of one, into text.
pub fn display_text(bytes: &[u8]) -> (text: String)
    ensures
        text@ == displayed(bytes@),
        bytes@.len() > 0 ==> text@.len() > 0,
        !bytes@.contains(SEPARATOR) ==> !text@.contains('/'),
{
    decode_lossy(bytes)
}

} // verus!
