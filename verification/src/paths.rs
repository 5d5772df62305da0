//! Path strings, modelled as plain character sequences with `/` as the
//! component separator: the parent of a manifest path, the file name and its
//! extension, and the check for a dynamic-library file.

use vstd::prelude::*;
use vstd::string::StrSliceExecFns;

use crate::strutil::{ci_matches, last_index_of, range_ci_matches, rfind_in};

verus! {

/// The path without its final component: everything before the last `/`,
/// or `/` itself when the last `/` opens the path.
pub open spec fn parent_of(s: Seq<char>) -> Seq<char> {
    match last_index_of(s, '/') {
        Some(i) => if i == 0 {
            s.subrange(0, 1)
        } else {
            s.subrange(0, i)
        },
        None => Seq::empty(),
    }
}

/// Extracts the parent path of `s`; the path must have one, that is, hold a
/// separator.
pub fn parent_path(s: &String) -> (r: String)
    requires
        last_index_of(s@, '/') is Some,
    ensures
        r@ == parent_of(s@),
{
    let st = s.as_str();
    let n = st.unicode_len();
    let sep = rfind_in(st, 0, n, '/');
    proof {
        assert(s@.subrange(0, n as int) =~= s@);
    }
    match sep {
        Some(i) => {
            if i == 0 {
                st.substring_char(0, 1).to_owned()
            } else {
                st.substring_char(0, i).to_owned()
            }
        },
        None => String::new(),
    }
}

/// Where the file name of `s` begins: right after the last `/`, or at the
/// start when there is none.
pub open spec fn file_name_start(s: Seq<char>) -> int {
    match last_index_of(s, '/') {
        Some(i) => i + 1,
        None => 0,
    }
}

/// The extension of the file name of `s`: what follows the last `.` of the
/// file name, unless that `.` opens the file name.
pub open spec fn extension_of(s: Seq<char>) -> Option<Seq<char>> {
    let st = file_name_start(s);
    let name = s.subrange(st, s.len() as int);
    match last_index_of(name, '.') {
        Some(d) => if d > 0 {
            Some(name.subrange(d + 1, name.len() as int))
        } else {
            None
        },
        None => None,
    }
}

/// The path names a dynamic library: its extension is `dll`, `dylib` or `so`,
/// compared without regard to ASCII case.
pub open spec fn is_dylib_spec(s: Seq<char>) -> bool {
    match extension_of(s) {
        Some(e) => ci_matches(e, "dll"@) || ci_matches(e, "dylib"@) || ci_matches(e, "so"@),
        None => false,
    }
}

/// The first path of the list that names a dynamic library, if any.
pub open spec fn first_dylib(files: Seq<Seq<char>>) -> Option<Seq<char>>
    decreases files.len(),
{
    if files.len() == 0 {
        None
    } else if is_dylib_spec(files[0]) {
        Some(files[0])
    } else {
        first_dylib(files.drop_first())
    }
}

/// Decides whether `path` names a dynamic-library file.
pub fn is_dylib(path: &String) -> (r: bool)
    ensures
        r == is_dylib_spec(path@),
{
    let st = path.as_str();
    let n = st.unicode_len();
    proof {
        assert(path@.subrange(0, n as int) =~= path@);
    }
    let name_start: usize = match rfind_in(st, 0, n, '/') {
        Some(i) => i + 1,
        None => 0,
    };
    assert(name_start == file_name_start(path@));
    let ghost name = path@.subrange(name_start as int, n as int);
    let dot = rfind_in(st, name_start, n, '.');
    match dot {
        Some(d) => {
            if d == name_start {
                false
            } else {
                let ghost ext = name.subrange(d - name_start + 1, name.len() as int);
                proof {
                    assert(ext =~= path@.subrange(d as int + 1, n as int));
                }
                range_ci_matches(st, d + 1, n, "dll") || range_ci_matches(st, d + 1, n, "dylib")
                    || range_ci_matches(st, d + 1, n, "so")
            }
        },
        None => false,
    }
}

} // verus!
