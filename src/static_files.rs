//! Static files: a client's sub-path is checked component by component and
//! only then joined onto the served root, so that it cannot leave it.
use vstd::prelude::*;
use crate::http_status::{BAD_REQUEST, NOT_FOUND, UNPROCESSABLE_ENTITY};

verus! {

/// `s[i..j]` is a component of `s`: it lies between two separators, or a
/// separator and an end of `s`, with no separator inside.
pub open spec fn is_component(s: Seq<char>, i: int, j: int) -> bool {
    &&& 0 <= i <= j <= s.len()
    &&& i == 0 || s[i - 1] == '/'
    &&& j == s.len() || s[j] == '/'
    &&& forall|k: int| i <= k < j ==> s[k] != '/'
}

/// `s[i..j]` is `.` or `..`.
pub open spec fn is_dot_segment(s: Seq<char>, i: int, j: int) -> bool {
    ||| j - i == 1 && s[i] == '.'
    ||| j - i == 2 && s[i] == '.' && s[i + 1] == '.'
}

/// `s[i..j]` names an entry: it is neither empty nor `.` nor `..`.
pub open spec fn is_normal(s: Seq<char>, i: int, j: int) -> bool {
    j > i && !is_dot_segment(s, i, j)
}

/// Every component of the path is a plain name. This rules out the empty
/// path, a leading separator (a root), doubled or trailing separators, and
/// the current and parent directory markers.
pub open spec fn is_confined(s: Seq<char>) -> bool {
    forall|i: int, j: int| #[trigger] is_component(s, i, j) ==> is_normal(s, i, j)
}

/// The sub-path joined onto the root, with one separator between them.
pub open spec fn joined(root: Seq<char>, sub: Seq<char>) -> Seq<char> {
    if root.len() == 0 || root.last() == '/' {
        root + sub
    } else {
        root + seq!['/'] + sub
    }
}

/// Why a static file could not be opened.
#[derive(Clone, Copy, Debug, PartialEq, Eq, Structural)]
pub enum FileOpenKind {
    NotFound,
    Other,
}

/// Why a static file request failed.
#[derive(Debug)]
pub enum RequestError {
    /// Opening the file failed.
    FileOpen(FileOpenKind),
    /// The sub-path could leave the root; it is kept as it was given.
    InvalidSubPath(String),
}

impl RequestError {
    pub open spec fn status_spec(&self) -> u16 {
        match self {
            RequestError::FileOpen(FileOpenKind::NotFound) => NOT_FOUND,
            RequestError::FileOpen(FileOpenKind::Other) => UNPROCESSABLE_ENTITY,
            RequestError::InvalidSubPath(_) => BAD_REQUEST,
        }
    }

    pub fn status_code(&self) -> (r: u16)
        ensures
            r == self.status_spec(),
    {
        match self {
            RequestError::FileOpen(FileOpenKind::NotFound) => NOT_FOUND,
            RequestError::FileOpen(FileOpenKind::Other) => UNPROCESSABLE_ENTITY,
            RequestError::InvalidSubPath(_) => BAD_REQUEST,
        }
    }

    /// The text sent with the status.
    pub fn body_text(&self) -> (r: &'static str)
        ensures
            r@ == match self {
                RequestError::FileOpen(FileOpenKind::NotFound) => "Not found"@,
                RequestError::FileOpen(FileOpenKind::Other) => "Unprocessable content"@,
                RequestError::InvalidSubPath(_) => "Bad request"@,
            },
    {
        match self {
            RequestError::FileOpen(FileOpenKind::NotFound) => "Not found",
            RequestError::FileOpen(FileOpenKind::Other) => "Unprocessable content",
            RequestError::InvalidSubPath(_) => "Bad request",
        }
    }
}

/// Whether every component of `s` is a plain name.
pub fn is_confined_subpath(s: &str) -> (r: bool)
    ensures
        r == is_confined(s@),
{
    let n = s.unicode_len();
    let mut start: usize = 0;
    let mut pos: usize = 0;
    while pos < n
        invariant
            n == s@.len(),
            start <= pos <= n,
            start == 0 || s@[start - 1] == '/',
            forall|k: int| start <= k < pos ==> s@[k] != '/',
            forall|i: int, j: int| is_component(s@, i, j) && j < start ==> is_normal(s@, i, j),
        decreases n - pos,
    {
        if s.get_char(pos) == '/' {
            if !component_is_normal(s, start, pos) {
                proof {
                    assert(is_component(s@, start as int, pos as int));
                }
                return false;
            }
            proof {
                assert forall|i: int, j: int| is_component(s@, i, j) && j < pos + 1 implies is_normal(s@, i, j) by {
                    if j == pos {
                        if i < start {
                            assert(s@[start - 1] == '/');
                        } else if i > start {
                            assert(s@[i - 1] == '/');
                        }
                    } else if j > start && j < pos {
                        assert(s@[j] == '/');
                    }
                };
            }
            start = pos + 1;
        }
        pos = pos + 1;
    }
    let last = component_is_normal(s, start, n);
    proof {
        assert(is_component(s@, start as int, n as int));
        if last {
            assert forall|i: int, j: int| is_component(s@, i, j) implies is_normal(s@, i, j) by {
                if j == n {
                    if i < start {
                        assert(s@[start - 1] == '/');
                    } else if i > start {
                        assert(s@[i - 1] == '/');
                    }
                } else if j >= start {
                    assert(s@[j] == '/');
                }
            };
        }
    }
    last
}

/// Whether `s[i..j]` names an entry.
fn component_is_normal(s: &str, i: usize, j: usize) -> (r: bool)
    requires
        i <= j <= s@.len(),
    ensures
        r == is_normal(s@, i as int, j as int),
{
    if j == i {
        false
    } else if j - i == 1 {
        s.get_char(i) != '.'
    } else if j - i == 2 {
        !(s.get_char(i) == '.' && s.get_char(i + 1) == '.')
    } else {
        true
    }
}

/// The path under `root` that a client's `subpath` names, once every
/// component of it is known to be a plain name; `InvalidSubPath` otherwise,
/// before anything on disk is touched.
pub fn resolve_subpath(root: &str, subpath: String) -> (r: Result<String, RequestError>)
    ensures
        is_confined(subpath@) ==> (r matches Ok(p) && p@ == joined(root@, subpath@)),
        !is_confined(subpath@) ==> r == Err::<String, RequestError>(RequestError::InvalidSubPath(subpath)),
{
    if !is_confined_subpath(subpath.as_str()) {
        return Err(RequestError::InvalidSubPath(subpath));
    }
    let n = root.unicode_len();
    let mut full = String::from_str(root);
    if n > 0 && root.get_char(n - 1) != '/' {
        full.append("/");
    }
    full.append(subpath.as_str());
    proof {
        reveal_strlit("/");
    }
    Ok(full)
}

} // verus!
