//! Turning a request target into the path of a file to serve.
use vstd::prelude::*;

use crate::text::{
    before, chars_of, eq_lit, find_char, lemma_find_from_bounds, push_all, push_str, slice_of,
    string_of,
};

verus! {

broadcast use vstd::std_specs::vec::group_vec_axioms;

/// Why a file cannot be served.
#[derive(Debug, Clone, Copy, PartialEq, Eq, Structural)]
pub enum FileError {
    FileDoesNotExist,
    InaccessibleExtension,
}

/// The texts of a list of strings.
pub open spec fn names(v: Seq<String>) -> Seq<Seq<char>> {
    v.map_values(|s: String| s@)
}

/// A path separator in a request target.
pub open spec fn is_sep(c: char) -> bool {
    c == '/' || c == '\\'
}

/// `s` without its leading separators.
pub open spec fn strip_leading(s: Seq<char>) -> Seq<char>
    decreases s.len(),
{
    if s.len() > 0 && is_sep(s[0]) {
        strip_leading(s.drop_first())
    } else {
        s
    }
}

/// The target without leading separators, cut at the first `?`.
pub open spec fn sanitized(url: Seq<char>) -> Seq<char> {
    before(strip_leading(url), '?')
}

/// The path of `target` under the root folder `root` in `source`.
pub open spec fn joined(root: Seq<char>, target: Seq<char>) -> Seq<char> {
    if root.len() == 0 {
        "source/"@ + target
    } else {
        "source/"@ + root + "/"@ + target
    }
}

/// The last index before `j` where `s` holds `c`, or -1.
pub open spec fn rfind_before(s: Seq<char>, c: char, j: int) -> int
    decreases j,
{
    if j <= 0 || j > s.len() {
        -1
    } else if s[j - 1] == c {
        j - 1
    } else {
        rfind_before(s, c, j - 1)
    }
}

/// The last component of a path.
pub open spec fn file_name(p: Seq<char>) -> Seq<char> {
    p.subrange(rfind_before(p, '/', p.len() as int) + 1, p.len() as int)
}

/// The extension of a path: what follows the last `.` of its last
/// component, unless that `.` starts the component.
pub open spec fn extension(p: Seq<char>) -> Option<Seq<char>> {
    let f = file_name(p);
    let d = rfind_before(f, '.', f.len() as int);
    if d <= 0 {
        None
    } else {
        Some(f.subrange(d + 1, f.len() as int))
    }
}

/// `p` with `index.html` as its last component.
pub open spec fn with_index(p: Seq<char>) -> Seq<char> {
    if p.len() > 0 && p.last() == '/' {
        p + "index.html"@
    } else {
        p + "/index.html"@
    }
}

/// The path served for `url` under the root folder `root`: a path without
/// an extension names a folder, whose `index.html` is served.
pub open spec fn resolved_path(url: Seq<char>, root: Seq<char>) -> Seq<char> {
    let p = joined(root, sanitized(url));
    if extension(p) is None {
        with_index(p)
    } else {
        p
    }
}

pub proof fn lemma_rfind_bounds(s: Seq<char>, c: char, j: int)
    requires
        0 <= j <= s.len(),
    ensures
        -1 <= rfind_before(s, c, j) < j,
        rfind_before(s, c, j) >= 0 ==> s[rfind_before(s, c, j)] == c,
    decreases j,
{
    if j > 0 && s[j - 1] != c {
        lemma_rfind_bounds(s, c, j - 1);
    }
}

/// The resolved path always has an extension.
pub proof fn lemma_resolved_has_extension(url: Seq<char>, root: Seq<char>)
    ensures
        extension(resolved_path(url, root)) is Some,
{
    let p = joined(root, sanitized(url));
    if extension(p) is None {
        let q = with_index(p);
        reveal_strlit("index.html");
        reveal_strlit("/index.html");
        let f = file_name(q);
        lemma_rfind_bounds(q, '/', q.len() as int);
        assert(q[q.len() - 11] == '/');
        assert(rfind_before(q, '/', q.len() as int) == q.len() - 11) by {
            reveal_with_fuel(rfind_before, 12);
            assert(q[q.len() - 1] != '/');
            assert(q[q.len() - 2] != '/');
            assert(q[q.len() - 3] != '/');
            assert(q[q.len() - 4] != '/');
            assert(q[q.len() - 5] != '/');
            assert(q[q.len() - 6] != '/');
            assert(q[q.len() - 7] != '/');
            assert(q[q.len() - 8] != '/');
            assert(q[q.len() - 9] != '/');
            assert(q[q.len() - 10] != '/');
        }
        assert(f =~= "index.html"@);
        assert(rfind_before(f, '.', 10) == 5) by {
            reveal_with_fuel(rfind_before, 6);
            assert(f[9] != '.');
            assert(f[8] != '.');
            assert(f[7] != '.');
            assert(f[6] != '.');
            assert(f[5] == '.');
        }
    }
}

/// One past the last index before `j` that holds `c`, or 0.
fn rfind_char(v: &Vec<char>, c: char, j: usize) -> (r: usize)
    requires
        j <= v.len(),
    ensures
        r as int == rfind_before(v@, c, j as int) + 1,
{
    let mut k = j;
    while k > 0 && v[k - 1] != c
        invariant
            k <= j <= v.len(),
            rfind_before(v@, c, j as int) == rfind_before(v@, c, k as int),
        decreases k,
    {
        k = k - 1;
    }
    k
}

fn extension_of(p: &Vec<char>) -> (r: Option<Vec<char>>)
    ensures
        match extension(p@) {
            None => r is None,
            Some(e) => r matches Some(x) && x@ == e,
        },
{
    let n = p.len();
    let s = rfind_char(p, '/', n);
    proof { lemma_rfind_bounds(p@, '/', n as int); }
    let f = slice_of(p, s, n);
    let d = rfind_char(&f, '.', f.len());
    proof { lemma_rfind_bounds(f@, '.', f@.len() as int); }
    if d <= 1 {
        None
    } else {
        Some(slice_of(&f, d, f.len()))
    }
}

/// The path served for `url` under the folder `search_folder`, with its
/// extension.
pub fn resolve(url: &str, search_folder: &str) -> (r: (String, String))
    ensures
        r.0@ == resolved_path(url@, search_folder@),
        extension(r.0@) == Some(r.1@),
{
    let u = chars_of(url);
    let mut a: usize = 0;
    assert(u@.subrange(0, u@.len() as int) == u@);
    while a < u.len() && (u[a] == '/' || u[a] == '\\')
        invariant
            a <= u.len(),
            strip_leading(u@) == strip_leading(u@.subrange(a as int, u@.len() as int)),
        decreases u.len() - a,
    {
        assert(u@.subrange(a + 1, u@.len() as int) =~= u@.subrange(a as int, u@.len() as int).drop_first());
        a = a + 1;
    }
    let stripped = slice_of(&u, a, u.len());
    assert(stripped@ == strip_leading(u@)) by {
        assert(u@.subrange(a as int, u@.len() as int) == stripped@);
    }
    let q = find_char(&stripped, '?', 0);
    proof { lemma_find_from_bounds(stripped@, '?', 0); }
    let target = slice_of(&stripped, 0, q);
    let root = chars_of(search_folder);
    let mut p: Vec<char> = Vec::new();
    push_str(&mut p, "source/");
    if root.len() > 0 {
        push_all(&mut p, &root);
        push_str(&mut p, "/");
    }
    push_all(&mut p, &target);
    proof {
        reveal_strlit("source/");
        reveal_strlit("/");
    }
    assert(p@ =~= joined(search_folder@, sanitized(url@)));
    let path = match extension_of(&p) {
        Some(_) => p,
        None => {
            if p.len() > 0 && p[p.len() - 1] == '/' {
                push_str(&mut p, "index.html");
            } else {
                push_str(&mut p, "/index.html");
            }
            p
        },
    };
    proof { lemma_resolved_has_extension(url@, search_folder@); }
    proof { reveal_strlit("index.html"); reveal_strlit("/index.html"); }
    let ext = extension_of(&path);
    match ext {
        Some(e) => (string_of(&path), string_of(&e)),
        None => (string_of(&path), String::new()),
    }
}

/// Whether `ext` is one of the allowed extensions.
pub fn allowed(allow: &Vec<String>, ext: &str) -> (r: bool)
    ensures
        r == names(allow@).contains(ext@),
{
    let e = chars_of(ext);
    let mut i: usize = 0;
    while i < allow.len()
        invariant
            i <= allow.len(),
            e@ == ext@,
            forall|k: int| 0 <= k < i ==> allow@[k]@ != ext@,
        decreases allow.len() - i,
    {
        let a = chars_of(allow[i].as_str());
        if eq_lit(&a, ext) {
            assert(names(allow@)[i as int] == ext@);
            return true;
        }
        i = i + 1;
    }
    assert(!names(allow@).contains(ext@)) by {
        if names(allow@).contains(ext@) {
            let k = choose|k: int| 0 <= k < allow@.len() && #[trigger] names(allow@)[k] == ext@;
            assert(allow@[k]@ == ext@);
        }
    }
    false
}

/// Decides which file `url` names under `search_folder`, given whether a
/// file exists at the resolved path: a missing file comes first, then an
/// extension outside `allow`.
pub fn parse_checked(url: &str, search_folder: &str, allow: &Vec<String>, exists: bool) -> (r: Result<String, FileError>)
    ensures
        !exists ==> r == Err::<String, FileError>(FileError::FileDoesNotExist),
        exists && !names(allow@).contains(extension(resolved_path(url@, search_folder@))->0)
            ==> r == Err::<String, FileError>(FileError::InaccessibleExtension),
        exists && names(allow@).contains(extension(resolved_path(url@, search_folder@))->0)
            ==> (r matches Ok(p) && p@ == resolved_path(url@, search_folder@)),
{
    let (path, ext) = resolve(url, search_folder);
    if !exists {
        return Err(FileError::FileDoesNotExist);
    }
    if !allowed(allow, ext.as_str()) {
        return Err(FileError::InaccessibleExtension);
    }
    Ok(path)
}

/// Relies on `std::path::Path::exists`: asks the file system whether an
/// entry is at `p`. The answer depends on the disk, so nothing is claimed.
#[verifier::external_body]
fn path_exists(p: &str) -> bool {
    std::path::Path::new(p).exists()
}

/// The file that `url` names under `search_folder`, if it exists and its
/// extension is in `allow`.
pub fn parse(url: &str, search_folder: &str, allow: &Vec<String>) -> (r: Result<String, FileError>)
    ensures
        r matches Ok(p) ==> p@ == resolved_path(url@, search_folder@)
            && names(allow@).contains(extension(p@)->0),
        r == Err::<String, FileError>(FileError::InaccessibleExtension) ==> !names(allow@).contains(extension(resolved_path(url@, search_folder@))->0),
{
    let (path, _) = resolve(url, search_folder);
    let exists = path_exists(path.as_str());
    parse_checked(url, search_folder, allow, exists)
}

} // verus!
