//! Verified helpers over the character sequences of strings: substring
//! search, backwards character search, and case-insensitive comparison
//! against an ASCII pattern.

use vstd::prelude::*;
use vstd::string::StrSliceExecFns;

verus! {

/// `needle` occurs as a contiguous run inside `hay`.
pub open spec fn contains_seq(hay: Seq<char>, needle: Seq<char>) -> bool {
    exists|i: int|
        0 <= i && i + needle.len() <= hay.len() && #[trigger] hay.subrange(i, i + needle.len())
            == needle
}

/// Whether `s` holds the substring `"lib"`.
pub fn contains_lib(s: &String) -> (r: bool)
    ensures
        r == contains_seq(s@, "lib"@),
{
    proof {
        reveal_strlit("lib");
    }
    let st = s.as_str();
    let n = st.unicode_len();
    if n < 3 {
        assert(!contains_seq(s@, "lib"@));
        return false;
    }
    let mut i: usize = 0;
    while i <= n - 3
        invariant
            s@ == st@,
            n == s@.len(),
            3 <= n,
            0 <= i <= n - 2,
            forall|j: int| 0 <= j < i ==> #[trigger] s@.subrange(j, j + 3) != "lib"@,
        decreases n - i,
    {
        let c0 = st.get_char(i);
        let c1 = st.get_char(i + 1);
        let c2 = st.get_char(i + 2);
        if c0 == 'l' && c1 == 'i' && c2 == 'b' {
            proof {
                reveal_strlit("lib");
                assert(s@.subrange(i as int, i as int + 3) =~= "lib"@);
            }
            return true;
        }
        proof {
            reveal_strlit("lib");
            assert(s@.subrange(i as int, i as int + 3) != "lib"@) by {
                if s@.subrange(i as int, i as int + 3) == "lib"@ {
                    assert(s@.subrange(i as int, i as int + 3)[0] == s@[i as int]);
                    assert(s@.subrange(i as int, i as int + 3)[1] == s@[i as int + 1]);
                    assert(s@.subrange(i as int, i as int + 3)[2] == s@[i as int + 2]);
                }
            }
        }
        i = i + 1;
    }
    proof {
        assert forall|j: int| 0 <= j && j + "lib"@.len() <= s@.len() implies #[trigger] s@.subrange(
            j,
            j + "lib"@.len(),
        ) != "lib"@ by {
            reveal_strlit("lib");
            assert(j < i);
            assert(s@.subrange(j, j + 3) != "lib"@);
        }
    }
    false
}

/// `c` is what `l` looks like with an optional ASCII upper-case in place of a
/// lower-case letter: `c` equals `l`, or `l` is a lower-case ASCII letter and
/// `c` is its upper-case form.
pub open spec fn lower_matches(c: char, l: char) -> bool {
    c == l || ('a' <= l && l <= 'z' && c as u32 + 32 == l as u32)
}

/// `s` equals the (lower-case ASCII) pattern `lit` up to ASCII case.
pub open spec fn ci_matches(s: Seq<char>, lit: Seq<char>) -> bool {
    s.len() == lit.len() && forall|i: int| 0 <= i < s.len() ==> lower_matches(s[i], lit[i])
}

/// Compares the characters of `s` between `from` and `to` against `lit`,
/// ignoring ASCII case in the sense of `lower_matches`.
pub fn range_ci_matches(s: &str, from: usize, to: usize, lit: &str) -> (r: bool)
    requires
        from <= to <= s@.len(),
    ensures
        r == ci_matches(s@.subrange(from as int, to as int), lit@),
{
    let m = lit.unicode_len();
    if to - from != m {
        return false;
    }
    let mut j: usize = 0;
    while j < m
        invariant
            from <= to <= s@.len(),
            m == lit@.len(),
            to - from == m,
            0 <= j <= m,
            forall|k: int| 0 <= k < j ==> lower_matches(
                s@.subrange(from as int, to as int)[k],
                lit@[k],
            ),
        decreases m - j,
    {
        let c = s.get_char(from + j);
        let l = lit.get_char(j);
        let ok = c == l || ('a' <= l && l <= 'z' && (c as u32) + 32 == l as u32);
        if !ok {
            assert(!lower_matches(s@.subrange(from as int, to as int)[j as int], lit@[j as int]));
            return false;
        }
        j = j + 1;
    }
    true
}

/// The index of the last occurrence of `c` in `s`, if any.
pub open spec fn last_index_of(s: Seq<char>, c: char) -> Option<int>
    decreases s.len(),
{
    if s.len() == 0 {
        None
    } else if s.last() == c {
        Some(s.len() - 1)
    } else {
        last_index_of(s.drop_last(), c)
    }
}

/// Searches the characters of `s` in positions `from..to` backwards for `c`.
pub fn rfind_in(s: &str, from: usize, to: usize, c: char) -> (r: Option<usize>)
    requires
        from <= to <= s@.len(),
    ensures
        match r {
            Some(i) => from <= i < to && last_index_of(s@.subrange(from as int, to as int), c)
                == Some(i - from),
            None => last_index_of(s@.subrange(from as int, to as int), c) is None,
        },
{
    let ghost sub = s@.subrange(from as int, to as int);
    let mut i: usize = to;
    while i > from
        invariant
            from <= i <= to <= s@.len(),
            sub == s@.subrange(from as int, to as int),
            last_index_of(sub, c) == last_index_of(
                s@.subrange(from as int, i as int),
                c,
            ),
        decreases i,
    {
        let ch = s.get_char(i - 1);
        proof {
            let pre = s@.subrange(from as int, i as int);
            assert(pre.len() > 0);
            assert(pre.last() == s@[i - 1]);
            assert(pre.drop_last() =~= s@.subrange(from as int, i - 1));
        }
        if ch == c {
            return Some(i - 1);
        }
        i = i - 1;
    }
    proof {
        assert(s@.subrange(from as int, from as int).len() == 0);
    }
    None
}

/// Copies a vector of strings; the view is kept exactly.
pub fn clone_strings(v: &Vec<String>) -> (r: Vec<String>)
    ensures
        r@ == v@,
{
    let mut r: Vec<String> = Vec::new();
    let mut i: usize = 0;
    while i < v.len()
        invariant
            0 <= i <= v@.len(),
            r@ =~= v@.subrange(0, i as int),
        decreases v@.len() - i,
    {
        r.push(v[i].clone());
        i = i + 1;
    }
    proof {
        assert(r@ =~= v@);
    }
    r
}

/// Whether the list of strings holds `x`.
pub fn contains_string(v: &Vec<String>, x: &String) -> (r: bool)
    ensures
        r == v.deep_view().contains(x@),
{
    let mut i: usize = 0;
    while i < v.len()
        invariant
            0 <= i <= v@.len(),
            v.deep_view().len() == v@.len(),
            forall|k: int| 0 <= k < i ==> v.deep_view()[k] != x@,
        decreases v@.len() - i,
    {
        proof {
            assert(v.deep_view()[i as int] == v@[i as int]@);
        }
        if v[i] == *x {
            assert(v.deep_view().contains(x@));
            return true;
        }
        i = i + 1;
    }
    false
}

/// Appends every string of `more` to `dst`, in order.
pub fn append_strings(dst: &mut Vec<String>, more: &Vec<String>)
    ensures
        final(dst)@ == old(dst)@ + more@,
{
    let mut i: usize = 0;
    while i < more.len()
        invariant
            0 <= i <= more@.len(),
            dst@ =~= old(dst)@ + more@.subrange(0, i as int),
        decreases more@.len() - i,
    {
        dst.push(more[i].clone());
        proof {
            assert(dst@ =~= old(dst)@ + more@.subrange(0, i as int + 1));
        }
        i = i + 1;
    }
    proof {
        assert(dst@ =~= old(dst)@ + more@);
    }
}

} // verus!
