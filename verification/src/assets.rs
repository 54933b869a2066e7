//! Static files: which file a request path asks for and what kind of
//! content it holds.

use vstd::prelude::*;
use vstd::string::StrSliceExecFns;

verus! {

/// The path of a static file, without a leading slash.
#[derive(Debug)]
pub struct StaticFile<T>(pub T);

/// The number of slashes at the start of `path`.
pub open spec fn leading_slashes(path: Seq<char>) -> nat
    decreases path.len(),
{
    if path.len() > 0 && path[0] == '/' {
        1 + leading_slashes(path.drop_first())
    } else {
        0
    }
}

/// `path` without the slashes at its start.
pub open spec fn without_leading_slashes(path: Seq<char>) -> Seq<char> {
    path.skip(leading_slashes(path) as int)
}

/// The slashes at the start are exactly the characters before the first
/// one that is no slash.
pub proof fn lemma_leading_slashes(path: Seq<char>, k: int)
    requires
        0 <= k <= path.len(),
        forall|i: int| 0 <= i < k ==> path[i] == '/',
        k < path.len() ==> path[k] != '/',
    ensures
        leading_slashes(path) == k,
    decreases k,
{
    if k > 0 {
        let rest = path.drop_first();
        assert forall|i: int| 0 <= i < k - 1 implies rest[i] == '/' by {
            assert(rest[i] == path[i + 1]);
        }
        if k - 1 < rest.len() {
            assert(rest[k - 1] == path[k]);
        }
        lemma_leading_slashes(rest, k - 1);
    }
}

/// Whether a segment of `path` may start at `i`: at the start of the path
/// and behind every slash.
pub open spec fn starts_segment(path: Seq<char>, i: int) -> bool {
    0 <= i <= path.len() && (i == 0 || path[i - 1] == '/')
}

/// Whether a segment of `path` ends at `i`: at the end of the path and in
/// front of every slash.
pub open spec fn ends_segment(path: Seq<char>, i: int) -> bool {
    i >= path.len() || path[i] == '/'
}

/// Whether the segment of `path` that starts at `i` is empty, `.` or `..`.
pub open spec fn leaves_at(path: Seq<char>, i: int) -> bool {
    &&& starts_segment(path, i)
    &&& {
        ||| ends_segment(path, i)
        ||| path[i] == '.' && ends_segment(path, i + 1)
        ||| path[i] == '.' && i + 1 < path.len() && path[i + 1] == '.' && ends_segment(
            path,
            i + 2,
        )
    }
}

/// A path stays inside the directory that it is read from when it is not
/// empty and none of its segments between slashes is empty, `.` or `..`.
pub open spec fn path_stays_inside(path: Seq<char>) -> bool {
    forall|i: int| 0 <= i <= path.len() ==> !#[trigger] leaves_at(path, i)
}

/// Whether `path` begins with `prefix`.
pub open spec fn begins_with(path: Seq<char>, prefix: Seq<char>) -> bool {
    prefix.len() <= path.len() && path.take(prefix.len() as int) == prefix
}

/// The files that are kept to the server: all below `icons/`, and the style
/// sheet `css/tailwind.css`.
pub open spec fn path_is_withheld(path: Seq<char>) -> bool {
    begins_with(path, "icons/"@) || path == "css/tailwind.css"@
}

/// The characters of a text.
pub fn chars_of(text: &str) -> (r: Vec<char>)
    ensures
        r@ == text@,
{
    let mut r: Vec<char> = Vec::new();
    for c in it: text.chars()
        invariant
            it.seq() == text@,
            r@ == text@.take(it.index() as int),
    {
        proof {
            assert(text@.take(it.index() + 1) =~= text@.take(it.index() as int).push(c));
        }
        r.push(c);
    }
    proof {
        assert(text@.take(text@.len() as int) =~= text@);
    }
    r
}

/// Whether `path` begins with `prefix`.
pub fn chars_begin_with(path: &Vec<char>, prefix: &Vec<char>) -> (r: bool)
    ensures
        r == begins_with(path@, prefix@),
{
    if prefix.len() > path.len() {
        return false;
    }
    let mut i: usize = 0;
    while i < prefix.len()
        invariant
            i <= prefix.len() <= path.len(),
            forall|j: int| 0 <= j < i ==> path@[j] == prefix@[j],
        decreases prefix.len() - i,
    {
        if path[i] != prefix[i] {
            proof {
                assert(path@.take(prefix@.len() as int)[i as int] == path@[i as int]);
            }
            return false;
        }
        i = i + 1;
    }
    proof {
        assert(path@.take(prefix@.len() as int) =~= prefix@);
    }
    true
}

/// Whether the segment of `path` that starts at `i` is empty, `.` or `..`.
fn segment_leaves(path: &Vec<char>, i: usize) -> (r: bool)
    requires
        i <= path.len(),
        starts_segment(path@, i as int),
    ensures
        r == leaves_at(path@, i as int),
{
    let len = path.len();
    if i >= len || path[i] == '/' {
        return true;
    }
    if path[i] != '.' {
        return false;
    }
    if i + 1 >= len || path[i + 1] == '/' {
        return true;
    }
    path[i + 1] == '.' && (i + 2 >= len || path[i + 2] == '/')
}

/// What `mime_guess::from_path` followed by `first_or_octet_stream` gives
/// for a path: the media type that goes with the path's extension, and
/// `application/octet-stream` where it knows none.
pub uninterp spec fn media_type_of(path: Seq<char>) -> Seq<char>;

/// Calls `mime_guess::from_path` and `MimeGuess::first_or_octet_stream`.
/// Claimed: the media type depends on the path alone, so it is the one that
/// [`media_type_of`] names.
#[verifier::external_body]
fn guess_media_type(path: &str) -> (r: String)
    ensures
        r@ == media_type_of(path@),
{
    mime_guess::from_path(path).first_or_octet_stream().as_ref().to_owned()
}

impl StaticFile<String> {
    /// The file that the path of a request asks for: the path without the
    /// slashes at its start.
    pub fn from_request_path(path: &str) -> (r: Self)
        ensures
            r.0@ == without_leading_slashes(path@),
    {
        let len = path.unicode_len();
        let mut k: usize = 0;
        while k < len && path.get_char(k) == '/'
            invariant
                len == path@.len(),
                k <= len,
                forall|i: int| 0 <= i < k ==> path@[i] == '/',
            decreases len - k,
        {
            k = k + 1;
        }
        proof {
            lemma_leading_slashes(path@, k as int);
        }
        StaticFile(path.substring_char(k, len).to_owned())
    }

    /// Whether the file lies inside the directory of the static files:
    /// whether its path is not empty and has no segment that is empty, `.`
    /// or `..`.
    pub fn stays_inside(&self) -> (r: bool)
        ensures
            r == path_stays_inside(self.0@),
    {
        let path = chars_of(self.0.as_str());
        let len = path.len();
        let mut i: usize = 0;
        while i < len
            invariant
                len == path@.len(),
                path@ == self.0@,
                i <= len,
                forall|j: int| 0 <= j < i ==> !#[trigger] leaves_at(path@, j),
            decreases len - i,
        {
            if i == 0 || path[i - 1] == '/' {
                if segment_leaves(&path, i) {
                    return false;
                }
            }
            i = i + 1;
        }
        if len == 0 || path[len - 1] == '/' {
            proof {
                assert(leaves_at(path@, len as int));
            }
            return false;
        }
        true
    }

    /// Whether the file is kept to the server and not handed out.
    pub fn is_withheld(&self) -> (r: bool)
        ensures
            r == path_is_withheld(self.0@),
    {
        let path = chars_of(self.0.as_str());
        let icons = chars_of("icons/");
        let sheet = chars_of("css/tailwind.css");
        proof {
            assert(path@.take(path@.len() as int) =~= path@);
        }
        chars_begin_with(&path, &icons) || (path.len() == sheet.len() && chars_begin_with(
            &path,
            &sheet,
        ))
    }

    /// Whether the file may be handed out: it lies inside the directory of
    /// the static files and is not kept to the server.
    pub fn is_served(&self) -> (r: bool)
        ensures
            r == (path_stays_inside(self.0@) && !path_is_withheld(self.0@)),
    {
        self.stays_inside() && !self.is_withheld()
    }

    /// The media type under which the file is served.
    pub fn media_type(&self) -> (r: String)
        ensures
            r@ == media_type_of(self.0@),
    {
        guess_media_type(self.0.as_str())
    }
}

} // verus!
