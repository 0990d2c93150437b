//! Asset paths as the Android asset reader sees them: byte strings with `/`
//! as separator, read by the rules of a Unix path.
//!
//! The file name of a path is its last component once trailing separators and
//! `.` components are dropped, unless that component is `..`. The extension of
//! a file name is what follows its last `.`, unless there is no `.` or the only
//! one starts the name.

use vstd::prelude::*;

verus! {

/// The byte `/`.
pub const SEPARATOR: u8 = 47;

/// The byte `.`.
pub const DOT: u8 = 46;

/// The suffix that a meta file adds to the path of its asset: `.meta`.
pub open spec fn meta_suffix() -> Seq<u8> {
    seq![46u8, 109u8, 101u8, 116u8, 97u8]
}

/// Whether `p[..n]` ends in a component that names no file: a separator, or
/// a `.` that is the whole of its component.
pub open spec fn ends_in_skipped(p: Seq<u8>, n: int) -> bool {
    &&& 0 < n
    &&& (p[n - 1] == SEPARATOR || (p[n - 1] == DOT && (n == 1 || p[n - 2] == SEPARATOR)))
}

/// The length of `p[..n]` once trailing separators and `.` components are dropped.
pub open spec fn trimmed_len(p: Seq<u8>, n: int) -> int
    decreases n,
{
    if n <= 0 {
        0
    } else if ends_in_skipped(p, n) {
        trimmed_len(p, n - 1)
    } else {
        n
    }
}

/// Where the last component of `p[..n]` starts: just after its last separator.
pub open spec fn component_start(p: Seq<u8>, n: int) -> int
    decreases n,
{
    if n <= 0 {
        0
    } else if p[n - 1] == SEPARATOR {
        n
    } else {
        component_start(p, n - 1)
    }
}

/// Where the file name of `p` ends.
pub open spec fn name_end(p: Seq<u8>) -> int {
    trimmed_len(p, p.len() as int)
}

/// Where the file name of `p` starts.
pub open spec fn name_start(p: Seq<u8>) -> int {
    component_start(p, name_end(p))
}

/// The file name of `p`, if it has one.
pub open spec fn file_name(p: Seq<u8>) -> Option<Seq<u8>> {
    let name = p.subrange(name_start(p), name_end(p));
    if name_end(p) == 0 || name =~= seq![DOT, DOT] {
        None
    } else {
        Some(name)
    }
}

/// The position of the last `.` in `s[..n]`, if there is one.
pub open spec fn last_dot(s: Seq<u8>, n: int) -> Option<int>
    decreases n,
{
    if n <= 0 {
        None
    } else if s[n - 1] == DOT {
        Some(n - 1)
    } else {
        last_dot(s, n - 1)
    }
}

/// The extension of a file name: what follows its last `.`, unless there is
/// no `.` or the last one starts the name.
pub open spec fn name_extension(name: Seq<u8>) -> Option<Seq<u8>> {
    match last_dot(name, name.len() as int) {
        Some(d) => if d > 0 {
            Some(name.subrange(d + 1, name.len() as int))
        } else {
            None
        },
        None => None,
    }
}

/// The extension of the file name of `p`, if there is one.
pub open spec fn extension(p: Seq<u8>) -> Option<Seq<u8>> {
    match file_name(p) {
        Some(name) => name_extension(name),
        None => None,
    }
}

/// The path of the meta file of the asset at `p`: `p` up to the end of its
/// file name, then `.meta` (the extension becomes the old one plus `.meta`).
pub open spec fn meta_path(p: Seq<u8>) -> Seq<u8> {
    p.subrange(0, name_end(p)) + meta_suffix()
}

proof fn lemma_trimmed_len_bounds(p: Seq<u8>, n: int)
    requires
        0 <= n <= p.len(),
    ensures
        0 <= trimmed_len(p, n) <= n,
        trimmed_len(p, n) > 0 ==> !ends_in_skipped(p, trimmed_len(p, n)),
    decreases n,
{
    if n > 0 && ends_in_skipped(p, n) {
        lemma_trimmed_len_bounds(p, n - 1);
    }
}

proof fn lemma_component_start_bounds(p: Seq<u8>, n: int)
    requires
        0 <= n <= p.len(),
    ensures
        0 <= component_start(p, n) <= n,
        forall|i: int| component_start(p, n) <= i < n ==> p[i] != SEPARATOR,
        component_start(p, n) > 0 ==> p[component_start(p, n) - 1] == SEPARATOR,
    decreases n,
{
    if n > 0 && p[n - 1] != SEPARATOR {
        lemma_component_start_bounds(p, n - 1);
    }
}

/// Where the file name of `path` ends, computed by dropping trailing
/// separators and `.` components.
fn find_name_end(path: &[u8]) -> (end: usize)
    ensures
        end == name_end(path@),
        end <= path@.len(),
{
    let mut end = path.len();
    while end > 0 && (path[end - 1] == SEPARATOR || (path[end - 1] == DOT && (end == 1
        || path[end - 2] == SEPARATOR)))
        invariant
            end <= path@.len(),
            trimmed_len(path@, end as int) == name_end(path@),
        decreases end,
    {
        end = end - 1;
    }
    end
}

/// Where the component of `path` that ends at `end` starts.
fn find_component_start(path: &[u8], end: usize) -> (start: usize)
    requires
        end <= path@.len(),
    ensures
        start == component_start(path@, end as int),
        start <= end,
{
    let mut start = end;
    while start > 0 && path[start - 1] != SEPARATOR
        invariant
            start <= end <= path@.len(),
            component_start(path@, start as int) == component_start(path@, end as int),
        decreases start,
    {
        start = start - 1;
    }
    start
}

/// Where the last `.` of `path[start..end]` is, if there is one.
fn find_last_dot(path: &[u8], start: usize, end: usize) -> (dot: Option<usize>)
    requires
        start <= end <= path@.len(),
    ensures
        dot matches Some(d) ==> last_dot(path@.subrange(start as int, end as int), end - start)
            == Some(d - start),
        dot matches Some(d) ==> start <= d < end,
        dot is None ==> last_dot(path@.subrange(start as int, end as int), end - start) is None,
{
    let ghost name = path@.subrange(start as int, end as int);
    let mut i = end;
    while i > start && path[i - 1] != DOT
        invariant
            start <= i <= end <= path@.len(),
            name == path@.subrange(start as int, end as int),
            last_dot(name, i - start) == last_dot(name, end - start),
        decreases i,
    {
        assert(name[i - start - 1] == path@[i - 1]);
        i = i - 1;
    }
    if i > start {
        assert(name[i - start - 1] == path@[i - 1]);
        Some(i - 1)
    } else {
        None
    }
}

/// The extension of the file name of `path`, if there is one.
pub fn path_extension(path: &[u8]) -> (ext: Option<Vec<u8>>)
    ensures
        match ext {
            Some(e) => extension(path@) == Some(e@),
            None => extension(path@) is None,
        },
{
    let end = find_name_end(path);
    let start = find_component_start(path, end);
    let ghost name = path@.subrange(start as int, end as int);
    if end == 0 {
        return None;
    }
    if end - start == 2 && path[start] == DOT && path[start + 1] == DOT {
        assert(name =~= seq![DOT, DOT]);
        return None;
    }
    assert(!(name =~= seq![DOT, DOT])) by {
        if name =~= seq![DOT, DOT] {
            assert(name[0] == path@[start as int]);
            assert(name[1] == path@[start + 1]);
        }
    }
    match find_last_dot(path, start, end) {
        Some(d) => {
            if d > start {
                let mut e: Vec<u8> = Vec::new();
                let mut i = d + 1;
                while i < end
                    invariant
                        d + 1 <= i <= end <= path@.len(),
                        e@ =~= path@.subrange(d + 1, i as int),
                    decreases end - i,
                {
                    e.push(path[i]);
                    i = i + 1;
                }
                assert(e@ =~= name.subrange(d - start + 1, name.len() as int));
                Some(e)
            } else {
                None
            }
        },
        None => None,
    }
}

/// A copy of `bytes[..end]`.
pub fn copy_prefix(bytes: &[u8], end: usize) -> (copy: Vec<u8>)
    requires
        end <= bytes@.len(),
    ensures
        copy@ == bytes@.subrange(0, end as int),
{
    let mut copy: Vec<u8> = Vec::new();
    let mut i: usize = 0;
    while i < end
        invariant
            i <= end <= bytes@.len(),
            copy@ =~= bytes@.subrange(0, i as int),
        decreases end - i,
    {
        copy.push(bytes[i]);
        i = i + 1;
    }
    copy
}

/// Appends `.meta` to the given path: the path of the meta file of the asset
/// at `path`, whose file name must have an extension.
pub fn get_meta_path(path: &[u8]) -> (meta: Vec<u8>)
    requires
        extension(path@) is Some,
    ensures
        meta@ == meta_path(path@),
{
    let end = find_name_end(path);
    let mut meta = copy_prefix(path, end);
    meta.push(DOT);
    meta.push(109u8);
    meta.push(101u8);
    meta.push(116u8);
    meta.push(97u8);
    assert(meta@ =~= meta_path(path@));
    meta
}

proof fn lemma_component_start_same_prefix(p: Seq<u8>, q: Seq<u8>, n: int)
    requires
        0 <= n <= p.len(),
        n <= q.len(),
        forall|i: int| 0 <= i < n ==> p[i] == q[i],
    ensures
        component_start(p, n) == component_start(q, n),
    decreases n,
{
    if n > 0 {
        lemma_component_start_same_prefix(p, q, n - 1);
    }
}

proof fn lemma_component_start_across(p: Seq<u8>, n: int, m: int)
    requires
        0 <= n <= m <= p.len(),
        forall|i: int| n <= i < m ==> p[i] != SEPARATOR,
    ensures
        component_start(p, m) == component_start(p, n),
    decreases m,
{
    if m > n {
        lemma_component_start_across(p, n, m - 1);
    }
}

/// A path that ends in its file name (no trailing separator or `.`
/// component): its meta path is the path with `.meta` appended.
pub proof fn lemma_meta_path_appends(p: Seq<u8>)
    requires
        name_end(p) == p.len(),
    ensures
        meta_path(p) == p + meta_suffix(),
{
    assert(p.subrange(0, p.len() as int) =~= p);
}

/// The meta file of an asset sits beside it: its file name is the asset's
/// file name followed by `.meta`, so its own extension is `meta`.
pub proof fn lemma_meta_file_name(p: Seq<u8>)
    requires
        file_name(p) is Some,
    ensures
        file_name(meta_path(p)) == Some(file_name(p)->0 + meta_suffix()),
        extension(meta_path(p)) == Some(seq![109u8, 101u8, 116u8, 97u8]),
        meta_path(p).subrange(0, name_end(p)) == p.subrange(0, name_end(p)),
{
    let end = name_end(p);
    let start = name_start(p);
    let m = meta_path(p);
    lemma_trimmed_len_bounds(p, p.len() as int);
    lemma_component_start_bounds(p, end);
    assert(m.len() == end + 5);
    // The meta path ends in `a`, so its file name ends where it does.
    assert(m[m.len() - 1] == 97u8);
    assert(trimmed_len(m, m.len() as int) == m.len());
    // Its file name starts where the asset's does.
    assert forall|i: int| end <= i < m.len() implies m[i] != SEPARATOR by {
        assert(m[i] == meta_suffix()[i - end]);
    }
    lemma_component_start_across(m, end, m.len() as int);
    lemma_component_start_same_prefix(m, p, end);
    assert(name_start(m) == start);
    let name = p.subrange(start, end);
    let mname = m.subrange(start, m.len() as int);
    assert(mname =~= name + meta_suffix());
    assert(!(mname =~= seq![DOT, DOT])) by {
        assert(mname.len() >= 5);
    }
    assert(file_name(m) == Some(mname));
    // The last dot of the meta file name is the one that starts `.meta`.
    let k = mname.len() as int;
    assert(mname[k - 5] == DOT);
    assert(mname[k - 4] != DOT && mname[k - 3] != DOT && mname[k - 2] != DOT && mname[k - 1] != DOT);
    assert(last_dot(mname, k) == Some(k - 5)) by {
        reveal_with_fuel(last_dot, 5);
    }
    assert(start < end);
    assert(mname.subrange(k - 4, k) =~= seq![109u8, 101u8, 116u8, 97u8]);
    assert(m.subrange(0, end) =~= p.subrange(0, end));
}

/// Extension rule of a file name with a `.` after its first byte: the
/// extension is exactly the bytes after the last `.`, whatever they are.
/// For a path `dir + stem + "." + ext`, where `dir` is empty or ends in a
/// separator, `stem` is non-empty without separators, and `ext` has no `.`
/// and no separator, the extension is `ext` (the one exception is the file
/// name `..`, which names no file).
pub proof fn lemma_extension_after_last_dot(dir: Seq<u8>, stem: Seq<u8>, ext: Seq<u8>)
    requires
        dir.len() == 0 || dir.last() == SEPARATOR,
        stem.len() > 0,
        forall|i: int| 0 <= i < stem.len() ==> stem[i] != SEPARATOR,
        forall|i: int| 0 <= i < ext.len() ==> ext[i] != SEPARATOR && ext[i] != DOT,
        !(stem + seq![DOT] + ext =~= seq![DOT, DOT]),
    ensures
        extension(dir + stem + seq![DOT] + ext) == Some(ext),
        file_name(dir + stem + seq![DOT] + ext) == Some(stem + seq![DOT] + ext),
{
    let name = stem + seq![DOT] + ext;
    let p = dir + name;
    assert(p =~= dir + stem + seq![DOT] + ext);
    let d = dir.len() as int;
    let len = p.len() as int;
    assert forall|i: int| d <= i < len implies p[i] != SEPARATOR by {
        assert(p[i] == name[i - d]);
        if i - d < stem.len() {
            assert(name[i - d] == stem[i - d]);
        } else if i - d > stem.len() {
            assert(name[i - d] == ext[i - d - stem.len() - 1]);
        }
    }
    // The path ends in its file name.
    assert(p[len - 1] != SEPARATOR);
    if p[len - 1] == DOT {
        assert(ext.len() == 0);
        assert(p[len - 2] == stem[stem.len() - 1]);
    }
    assert(!ends_in_skipped(p, len));
    assert(trimmed_len(p, len) == len);
    assert(name_end(p) == len);
    // The file name starts just after `dir`.
    lemma_component_start_across(p, d, len);
    if d > 0 {
        assert(p[d - 1] == dir.last());
        assert(component_start(p, d) == d);
    }
    assert(name_start(p) == d);
    assert(p.subrange(d, len) =~= name);
    assert(file_name(p) == Some(name));
    // The last dot of the name is the one before `ext`.
    let k = name.len() as int;
    let dot = stem.len() as int;
    assert(name[dot] == DOT);
    assert forall|i: int| dot < i < k implies name[i] != DOT by {
        assert(name[i] == ext[i - dot - 1]);
    }
    lemma_last_dot_is(name, dot, k);
    assert(name.subrange(dot + 1, k) =~= ext);
}

proof fn lemma_last_dot_is(s: Seq<u8>, dot: int, n: int)
    requires
        0 <= dot < n <= s.len(),
        s[dot] == DOT,
        forall|i: int| dot < i < n ==> s[i] != DOT,
    ensures
        last_dot(s, n) == Some(dot),
    decreases n,
{
    if n - 1 > dot {
        lemma_last_dot_is(s, dot, n - 1);
    }
}

} // verus!
