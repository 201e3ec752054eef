//! File jobs: one container file together with the subtitle files that are
//! derived from it, which stand beside it under the same base name.

use crate::decimal::{decimal_digits, render_u64};
use crate::text::{ascii_lower, chars_of, concat3, to_lower};
use vstd::prelude::*;
use vstd::string::*;

verus! {

/// The extension of a plain-text subtitle file, dot included.
pub open spec fn plain_suffix() -> Seq<char> {
    ".srt"@
}

/// The extension of an advanced subtitle file, dot included.
pub open spec fn advanced_suffix() -> Seq<char> {
    ".ass"@
}

/// A path names a container file when it ends in `.mkv`, letters compared
/// without regard to case, after a base name that is not empty: the extension
/// alone is no file name, neither at the start of the path nor behind a `/`.
pub open spec fn is_container_path(path: Seq<char>) -> bool {
    let n = path.len();
    &&& n > 4
    &&& path[n - 5] != '/'
    &&& path[n - 4] == '.'
    &&& ascii_lower(path[n - 3]) == 'm'
    &&& ascii_lower(path[n - 2]) == 'k'
    &&& ascii_lower(path[n - 1]) == 'v'
}

/// A container path without its extension.
pub open spec fn stem_of(path: Seq<char>) -> Seq<char> {
    path.take(path.len() - 4)
}

/// The path of the plain-text subtitle file that belongs to a container path.
pub open spec fn plain_path_of(path: Seq<char>) -> Seq<char> {
    stem_of(path) + plain_suffix()
}

/// The path of the advanced subtitle file that belongs to a container path.
pub open spec fn advanced_path_of(path: Seq<char>) -> Seq<char> {
    stem_of(path) + advanced_suffix()
}

/// The argument that tells the extraction tool which track to write where:
/// the index in decimal, a colon, the destination.
pub open spec fn track_argument_of(index: u64, destination: Seq<char>) -> Seq<char> {
    decimal_digits(index as nat) + seq![':'] + destination
}

/// Whether `path` names a container file.
pub fn is_container_file(path: &str) -> (qualifies: bool)
    ensures
        qualifies == is_container_path(path@),
{
    let chars = chars_of(path);
    let n: usize = chars.len();
    n > 4 && chars[n - 5] != '/' && chars[n - 4] == '.' && to_lower(chars[n - 3]) == 'm'
        && to_lower(chars[n - 2]) == 'k' && to_lower(chars[n - 1]) == 'v'
}

/// Builds the argument that tells the extraction tool which track to write
/// where.
pub fn track_argument(index: u64, destination: &str) -> (argument: String)
    ensures
        argument@ == track_argument_of(index, destination@),
{
    proof {
        reveal_strlit(":");
    }
    concat3(render_u64(index).as_str(), ":", destination)
}

/// One container file and the paths of the subtitle files derived from it.
/// Its model is the path of the container file: the other two follow from it.
#[derive(Debug, PartialEq, Eq)]
pub struct FileJob {
    source: String,
    plain: String,
    advanced: String,
}

impl View for FileJob {
    type V = Seq<char>;

    closed spec fn view(&self) -> Seq<char> {
        self.source@
    }
}

impl FileJob {
    #[verifier::type_invariant]
    spec fn well_formed(self) -> bool {
        &&& is_container_path(self.source@)
        &&& self.plain@ == plain_path_of(self.source@)
        &&& self.advanced@ == advanced_path_of(self.source@)
    }

    /// The job for `path`, where `path` names a container file.
    pub fn for_path(path: &str) -> (job: Option<FileJob>)
        ensures
            job is Some <==> is_container_path(path@),
            job matches Some(j) ==> j@ == path@,
    {
        if !is_container_file(path) {
            return None;
        }
        let stem = path.substring_char(0, path.unicode_len() - 4);
        let plain = String::from_str(stem).concat(".srt");
        let advanced = String::from_str(stem).concat(".ass");
        Some(FileJob { source: String::from_str(path), plain, advanced })
    }

    /// The path of the container file.
    pub fn source(&self) -> (path: &String)
        ensures
            path@ == self@,
            is_container_path(self@),
    {
        proof {
            use_type_invariant(self);
        }
        &self.source
    }

    /// The path of the plain-text subtitle file, the final product.
    pub fn plain_path(&self) -> (path: &String)
        ensures
            path@ == plain_path_of(self@),
    {
        proof {
            use_type_invariant(self);
        }
        &self.plain
    }

    /// The path of the advanced subtitle file, which only exists between
    /// extraction and conversion.
    pub fn advanced_path(&self) -> (path: &String)
        ensures
            path@ == advanced_path_of(self@),
    {
        proof {
            use_type_invariant(self);
        }
        &self.advanced
    }
}

/// The subtitle files of two container files never get in each other's way:
/// two jobs share a derived path only where their container paths differ at
/// most in the case of the extension, no plain-text path is an advanced path,
/// and no derived path names a container file.
pub proof fn law_outputs_apart(a: Seq<char>, b: Seq<char>)
    requires
        is_container_path(a),
        is_container_path(b),
    ensures
        plain_path_of(a) == plain_path_of(b) <==> stem_of(a) == stem_of(b),
        advanced_path_of(a) == advanced_path_of(b) <==> stem_of(a) == stem_of(b),
        plain_path_of(a) != advanced_path_of(b),
        !is_container_path(plain_path_of(a)),
        !is_container_path(advanced_path_of(a)),
{
    reveal_strlit(".srt");
    reveal_strlit(".ass");
    let (pa, pb) = (plain_path_of(a), plain_path_of(b));
    let (xa, xb) = (advanced_path_of(a), advanced_path_of(b));
    assert(pa.take(pa.len() - 4) =~= stem_of(a));
    assert(pb.take(pb.len() - 4) =~= stem_of(b));
    assert(xa.take(xa.len() - 4) =~= stem_of(a));
    assert(xb.take(xb.len() - 4) =~= stem_of(b));
    assert(pa[pa.len() - 1] == 't');
    assert(xa[xa.len() - 1] == 's');
    assert(xb[xb.len() - 1] == 's');
}

} // verus!
