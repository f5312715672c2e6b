use vstd::prelude::*;
use vstd::string::*;

use crate::errors::CdnError;

verus! {

/// `s` with every leading `/` removed.
pub open spec fn trim_start_slashes(s: Seq<char>) -> Seq<char>
    decreases s.len(),
{
    if s.len() > 0 && s[0] == '/' {
        trim_start_slashes(s.drop_first())
    } else {
        s
    }
}

/// `s` with every trailing `/` removed.
pub open spec fn trim_end_slashes(s: Seq<char>) -> Seq<char>
    decreases s.len(),
{
    if s.len() > 0 && s.last() == '/' {
        trim_end_slashes(s.drop_last())
    } else {
        s
    }
}

/// `s` with leading and trailing `/` removed.
pub open spec fn trim_slashes(s: Seq<char>) -> Seq<char> {
    trim_end_slashes(trim_start_slashes(s))
}

/// A `..` segment starts at index `i` of `s`.
pub open spec fn parent_segment_at(s: Seq<char>, i: int) -> bool {
    &&& 0 <= i
    &&& i + 2 <= s.len()
    &&& s[i] == '.'
    &&& s[i + 1] == '.'
    &&& (i == 0 || s[i - 1] == '/')
    &&& (i + 2 == s.len() || s[i + 2] == '/')
}

/// Some `/`-separated segment of `s` is `..`.
pub open spec fn has_parent_segment(s: Seq<char>) -> bool {
    exists|i: int| parent_segment_at(s, i)
}

proof fn lemma_trim_start_step(s: Seq<char>, lo: int)
    requires
        0 <= lo < s.len(),
        s[lo] == '/',
    ensures
        trim_start_slashes(s.subrange(lo, s.len() as int)) == trim_start_slashes(
            s.subrange(lo + 1, s.len() as int),
        ),
{
    assert(s.subrange(lo, s.len() as int).drop_first() =~= s.subrange(lo + 1, s.len() as int));
}

proof fn lemma_trim_end_step(s: Seq<char>, hi: int)
    requires
        0 < hi <= s.len(),
        s[hi - 1] == '/',
    ensures
        trim_end_slashes(s.subrange(0, hi)) == trim_end_slashes(s.subrange(0, hi - 1)),
{
    assert(s.subrange(0, hi).drop_last() =~= s.subrange(0, hi - 1));
}

/// Removes leading and trailing `/` characters.
pub fn trim_slashes_str(s: &str) -> (r: String)
    ensures
        r@ == trim_slashes(s@),
{
    let n = s.unicode_len();
    let mut lo: usize = 0;
    assert(s@.subrange(0, n as int) =~= s@);
    while lo < n && s.get_char(lo) == '/'
        invariant
            n == s@.len(),
            lo <= n,
            trim_start_slashes(s@.subrange(lo as int, n as int)) == trim_start_slashes(s@),
        decreases n - lo,
    {
        proof {
            lemma_trim_start_step(s@, lo as int);
        }
        lo = lo + 1;
    }
    let ghost t = s@.subrange(lo as int, n as int);
    assert(trim_start_slashes(t) == t);
    let mut hi: usize = n;
    assert(t.subrange(0, t.len() as int) =~= t);
    while hi > lo && s.get_char(hi - 1) == '/'
        invariant
            n == s@.len(),
            lo <= hi <= n,
            t == s@.subrange(lo as int, n as int),
            trim_end_slashes(t.subrange(0, hi - lo)) == trim_end_slashes(t),
        decreases hi - lo,
    {
        proof {
            lemma_trim_end_step(t, (hi - lo) as int);
        }
        hi = hi - 1;
    }
    assert(t.subrange(0, hi - lo) =~= s@.subrange(lo as int, hi as int));
    String::from_str(s.substring_char(lo, hi))
}

/// Tells whether some `/`-separated segment of `s` is `..`.
pub fn contains_parent_segment(s: &str) -> (r: bool)
    ensures
        r == has_parent_segment(s@),
{
    let n = s.unicode_len();
    if n < 2 {
        return false;
    }
    let mut i: usize = 0;
    while i < n - 1
        invariant
            n == s@.len(),
            n >= 2,
            i <= n - 1,
            forall|j: int| 0 <= j < i ==> !parent_segment_at(s@, j),
        decreases n - i,
    {
        if s.get_char(i) == '.' && s.get_char(i + 1) == '.' && (i == 0 || s.get_char(i - 1)
            == '/') && (i + 2 == n || s.get_char(i + 2) == '/') {
            assert(parent_segment_at(s@, i as int));
            return true;
        }
        i = i + 1;
    }
    assert forall|j: int| !parent_segment_at(s@, j) by {
        if 0 <= j && j < i {
        }
    }
    false
}

/// The directory under which every uploaded file is stored.
pub open spec fn upload_root() -> Seq<char> {
    "./uploads"@
}

/// No character of `s` is `/`.
pub open spec fn has_no_slash(s: Seq<char>) -> bool {
    forall|i: int| 0 <= i < s.len() ==> s[i] != '/'
}

/// A file name that stays inside its directory.
pub open spec fn valid_filename(f: Seq<char>) -> bool {
    has_no_slash(f) && !has_parent_segment(f)
}

/// The logical directory that the optional query value names.
pub open spec fn logical_directory(directory: Option<String>) -> Seq<char> {
    match directory {
        Some(d) => trim_slashes(d@),
        None => Seq::empty(),
    }
}

/// The path of a stored file as the server publishes it: relative to the upload root.
pub open spec fn relative_path(dir: Seq<char>, name: Seq<char>) -> Seq<char> {
    if dir.len() == 0 {
        seq!['/'] + name
    } else {
        seq!['/'] + dir + seq!['/'] + name
    }
}

/// The directory that holds the stored file.
pub open spec fn parent_path(dir: Seq<char>) -> Seq<char> {
    if dir.len() == 0 {
        upload_root()
    } else {
        upload_root() + seq!['/'] + dir
    }
}

/// Where an upload goes on disk, and how the server names it.
#[derive(Debug)]
pub struct ResolvedPath {
    /// The file's path on disk.
    pub file: String,
    /// The directory that holds it, which must exist before the write.
    pub parent: String,
    /// The file's path relative to the upload root, with a leading `/`.
    pub relative: String,
}

impl ResolvedPath {
    /// The paths of a file named `name` in the logical directory `dir`.
    pub open spec fn describes(&self, dir: Seq<char>, name: Seq<char>) -> bool {
        &&& self.relative@ == relative_path(dir, name)
        &&& self.file@ == upload_root() + relative_path(dir, name)
        &&& self.parent@ == parent_path(dir)
    }
}

/// Tells whether `s` holds a `/`.
pub fn contains_slash(s: &str) -> (r: bool)
    ensures
        r == !has_no_slash(s@),
{
    let n = s.unicode_len();
    let mut i: usize = 0;
    while i < n
        invariant
            n == s@.len(),
            i <= n,
            forall|j: int| 0 <= j < i ==> s@[j] != '/',
        decreases n - i,
    {
        if s.get_char(i) == '/' {
            return true;
        }
        i = i + 1;
    }
    false
}

/// Computes where a file named `filename` goes, in the directory that the
/// query value `directory` names once its outer slashes are trimmed; an empty
/// or absent directory is the upload root itself. A directory with a `..`
/// segment, or a file name with a `/` or equal to `..`, is refused.
pub fn resolve_path(directory: &Option<String>, filename: &str) -> (r: Result<ResolvedPath, CdnError>)
    ensures
        r is Ok <==> !has_parent_segment(logical_directory(*directory)) && valid_filename(
            filename@,
        ),
        r is Ok ==> r->Ok_0.describes(logical_directory(*directory), filename@),
        r is Err ==> r->Err_0 == CdnError::InvalidPath,
{
    let dir = match directory {
        Some(d) => trim_slashes_str(d.as_str()),
        None => String::new(),
    };
    if contains_parent_segment(dir.as_str()) || contains_slash(filename) || contains_parent_segment(
        filename,
    ) {
        return Err(CdnError::InvalidPath);
    }
    let mut relative = String::from_str("/");
    let mut parent = String::from_str("./uploads");
    proof {
        reveal_strlit("/");
        reveal_strlit("./uploads");
    }
    if dir.unicode_len() > 0 {
        relative.append(dir.as_str());
        relative.append("/");
        parent.append("/");
        parent.append(dir.as_str());
    }
    relative.append(filename);
    let mut file = String::from_str("./uploads");
    file.append(relative.as_str());
    proof {
        assert(relative@ =~= relative_path(dir@, filename@));
        assert(parent@ =~= parent_path(dir@));
    }
    Ok(ResolvedPath { file, parent, relative })
}

/// The file on disk that a delete request for `path` names.
pub open spec fn delete_target(path: Seq<char>) -> Seq<char> {
    upload_root() + seq!['/'] + trim_slashes(path)
}

/// Computes the file that a delete request for `path` targets: the upload
/// root joined with `path` once its outer slashes are trimmed. A path with a
/// `..` segment, or one that names the upload root itself, is refused.
pub fn resolve_delete_path(path: &str) -> (r: Result<String, CdnError>)
    ensures
        r is Ok <==> !has_parent_segment(trim_slashes(path@)) && trim_slashes(path@).len() > 0,
        r is Ok ==> r->Ok_0@ == delete_target(path@),
        r is Err ==> r->Err_0 == CdnError::InvalidPath,
{
    let trimmed = trim_slashes_str(path);
    if trimmed.unicode_len() == 0 || contains_parent_segment(trimmed.as_str()) {
        return Err(CdnError::InvalidPath);
    }
    let mut target = String::from_str("./uploads/");
    proof {
        reveal_strlit("./uploads/");
        reveal_strlit("./uploads");
        assert("./uploads/"@ =~= upload_root() + seq!['/']);
    }
    target.append(trimmed.as_str());
    Ok(target)
}

} // verus!
