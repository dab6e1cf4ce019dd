//! Construction of the on-disk layout: the version-named install directory,
//! the binary path inside it, the auxiliary stdlib directory, and the parent
//! directory of a remembered binary path.

use vstd::prelude::*;
use vstd::string::StrSliceExecFns;
use vstd::string::StringExecFns;
use crate::text::find_last;

verus! {

/// Name of the directory a version is installed into: `flang-<version>`.
pub open spec fn version_dir_spec(version: Seq<char>) -> Seq<char> {
    "flang-"@ + version
}

/// `dir` and `name` joined with a single `/`.
pub open spec fn join_path_spec(dir: Seq<char>, name: Seq<char>) -> Seq<char> {
    dir + "/"@ + name
}

/// The auxiliary-resource directory that may ship beside the binary.
pub open spec fn stdlib_path_spec(dir: Seq<char>) -> Seq<char> {
    dir + "/stdlib"@
}

/// The directory part of a path: everything before the last `/`; when the
/// path has no `/`, everything before the last `\`; when it has neither
/// separator, `.`.
pub open spec fn parent_dir_spec(path: Seq<char>) -> Seq<char> {
    if exists|i: int| 0 <= i < path.len() && path[i] == '/' {
        path.subrange(0, last_index_of(path, '/'))
    } else if exists|i: int| 0 <= i < path.len() && path[i] == '\\' {
        path.subrange(0, last_index_of(path, '\\'))
    } else {
        "."@
    }
}

/// The greatest index at which `c` occurs in `s` (meaningful only when `c`
/// occurs at all).
pub open spec fn last_index_of(s: Seq<char>, c: char) -> int {
    choose|i: int| 0 <= i < s.len() && s[i] == c && forall|j: int| i < j < s.len() ==> s[j] != c
}

/// Builds the version directory name `flang-<version>`.
pub fn version_dir_name(version: &str) -> (r: String)
    ensures
        r@ == version_dir_spec(version@),
{
    String::from_str("flang-").concat(version)
}

/// Joins a directory and an entry name with `/`.
pub fn join_path(dir: &str, name: &str) -> (r: String)
    ensures
        r@ == join_path_spec(dir@, name@),
{
    String::from_str(dir).concat("/").concat(name)
}

/// Builds the stdlib directory path under an install directory.
pub fn stdlib_path(dir: &str) -> (r: String)
    ensures
        r@ == stdlib_path_spec(dir@),
{
    String::from_str(dir).concat("/stdlib")
}

proof fn lemma_last_index(s: Seq<char>, c: char, i: int)
    requires
        0 <= i < s.len(),
        s[i] == c,
        forall|j: int| i < j < s.len() ==> s[j] != c,
    ensures
        last_index_of(s, c) == i,
{
    assert(0 <= i < s.len() && s[i] == c && (forall|j: int| i < j < s.len() ==> s[j] != c));
    let w = last_index_of(s, c);
    assert(0 <= w < s.len() && s[w] == c && (forall|j: int| w < j < s.len() ==> s[j] != c));
    if w < i {
        assert(s[i] != c);
    }
    if w > i {
        assert(s[w] != c);
    }
}

/// Returns the containing directory of `path`, per [`parent_dir_spec`].
pub fn parent_dir(path: &str) -> (r: String)
    ensures
        r@ == parent_dir_spec(path@),
{
    match find_last(path, '/') {
        Some(i) => {
            proof {
                lemma_last_index(path@, '/', i as int);
            }
            String::from_str(path.substring_char(0, i))
        },
        None => {
            match find_last(path, '\\') {
                Some(i) => {
                    proof {
                        lemma_last_index(path@, '\\', i as int);
                    }
                    String::from_str(path.substring_char(0, i))
                },
                None => String::from_str("."),
            }
        },
    }
}

} // verus!
