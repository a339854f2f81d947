//! Splitting a package path into its base package and its subpath.
//!
//! A package path such as `@scope/pkg/sub/mod` names an entry of a registry
//! (`@scope/pkg`) and a file or module inside it (`/sub/mod`). Flat names
//! (`lodash/fp`) end their entry at the first separator; scoped names end it
//! at the second.
use vstd::prelude::*;

verus! {

/// The character that separates the segments of a package path.
pub open spec fn is_separator(c: char) -> bool {
    c == '/'
}

/// A name that starts with the scope marker `@`.
pub open spec fn is_scoped(s: Seq<char>) -> bool {
    s.len() > 0 && s[0] == '@'
}

/// The number of separators in `s`.
pub open spec fn separator_count(s: Seq<char>) -> nat
    decreases s.len(),
{
    if s.len() == 0 {
        0
    } else {
        separator_count(s.drop_first()) + if is_separator(s[0]) {
            1nat
        } else {
            0nat
        }
    }
}

/// Where `s` is cut so that the part before the cut holds exactly `n`
/// separators and the part after starts with a separator; the length of `s`
/// when `s` holds no more than `n` separators.
pub open spec fn cut_point(s: Seq<char>, n: nat) -> int
    decreases s.len(),
{
    if s.len() == 0 {
        0
    } else if is_separator(s[0]) && n == 0 {
        0
    } else {
        1 + cut_point(
            s.drop_first(),
            if is_separator(s[0]) {
                (n - 1) as nat
            } else {
                n
            },
        )
    }
}

/// `s` cut after its first `n` separators: the base and the subpath.
pub open spec fn cut(s: Seq<char>, n: nat) -> (Seq<char>, Seq<char>) {
    (s.take(cut_point(s, n)), s.skip(cut_point(s, n)))
}

/// The split of a name of the flat namespace: a scoped name keeps its
/// first two segments as its base, any other name its first segment.
pub open spec fn flat_parts(s: Seq<char>) -> (Seq<char>, Seq<char>) {
    if is_scoped(s) {
        cut(s, 1)
    } else {
        cut(s, 0)
    }
}

/// The split of a name of the scoped namespace: the base is always the
/// first two segments.
pub open spec fn scoped_parts(s: Seq<char>) -> (Seq<char>, Seq<char>) {
    cut(s, 1)
}

/// `s` holds no separator.
pub open spec fn separator_free(s: Seq<char>) -> bool {
    forall|i: int| 0 <= i < s.len() ==> !is_separator(#[trigger] s[i])
}

proof fn lemma_count_zero(s: Seq<char>)
    ensures
        separator_count(s) == 0 <==> separator_free(s),
    decreases s.len(),
{
    if s.len() > 0 {
        let t = s.drop_first();
        lemma_count_zero(t);
        if separator_free(s) {
            assert forall|i: int| 0 <= i < t.len() implies !is_separator(#[trigger] t[i]) by {
                assert(t[i] == s[i + 1]);
            }
        }
        if separator_count(s) == 0 {
            assert forall|i: int| 0 <= i < s.len() implies !is_separator(#[trigger] s[i]) by {
                if i > 0 {
                    assert(s[i] == t[i - 1]);
                }
            }
        }
    }
}

/// The cut after `n` separators lies within `s`; it is the end of `s` when
/// `s` holds no more than `n` separators, and otherwise a separator with
/// exactly `n` separators before it.
proof fn lemma_cut(s: Seq<char>, n: nat)
    ensures
        0 <= cut_point(s, n) <= s.len(),
        separator_count(s) <= n ==> cut_point(s, n) == s.len(),
        separator_count(s) > n ==> cut_point(s, n) < s.len() && is_separator(s[cut_point(s, n)])
            && separator_count(s.take(cut_point(s, n))) == n,
    decreases s.len(),
{
    if s.len() == 0 {
    } else if is_separator(s[0]) && n == 0 {
        assert(separator_count(s.take(0)) == 0) by {
            assert(s.take(0).len() == 0);
        }
    } else {
        let t = s.drop_first();
        let m = if is_separator(s[0]) {
            (n - 1) as nat
        } else {
            n
        };
        lemma_cut(t, m);
        let k = cut_point(s, n);
        assert(s.take(k).drop_first() =~= t.take(k - 1));
        assert(s.take(k)[0] == s[0]);
        if separator_count(s) > n {
            assert(s[k] == t[k - 1]);
        } else {
            assert(k == s.len());
        }
    }
}

proof fn lemma_cut_split(s: Seq<char>, n: nat)
    ensures
        cut(s, n).0 + cut(s, n).1 == s,
        cut(s, n).1.len() == 0 || is_separator(cut(s, n).1[0]),
        separator_count(s) <= n ==> cut(s, n) == (s, Seq::<char>::empty()),
        separator_count(s) > n ==> separator_count(cut(s, n).0) == n && cut(s, n).1.len() > 0,
{
    lemma_cut(s, n);
    let k = cut_point(s, n);
    assert(s.take(k) + s.skip(k) =~= s);
    if separator_count(s) <= n {
        assert(s.take(k) =~= s);
        assert(s.skip(k) =~= Seq::<char>::empty());
    } else {
        assert(s.skip(k)[0] == s[k]);
    }
}

/// A flat name with neither scope marker nor separator is its own base, and
/// its subpath is empty.
pub proof fn lemma_flat_plain_name(s: Seq<char>)
    requires
        !is_scoped(s),
        separator_free(s),
    ensures
        flat_parts(s) == (s, Seq::<char>::empty()),
{
    lemma_count_zero(s);
    lemma_cut_split(s, 0);
}

/// A flat name without scope marker that holds a separator splits at its
/// first separator: the base is everything before it and holds no
/// separator, the subpath is the rest, starting with that separator, and
/// the two put together give back the name.
pub proof fn lemma_flat_plain_path(s: Seq<char>)
    requires
        !is_scoped(s),
        !separator_free(s),
    ensures
        flat_parts(s).0 + flat_parts(s).1 == s,
        separator_free(flat_parts(s).0),
        flat_parts(s).1.len() > 0,
        is_separator(flat_parts(s).1[0]),
{
    lemma_count_zero(s);
    lemma_cut_split(s, 0);
    lemma_count_zero(flat_parts(s).0);
}

/// A scoped name of exactly two segments is its own base under both
/// conventions, and its subpath is empty.
pub proof fn lemma_scoped_two_segments(s: Seq<char>)
    requires
        is_scoped(s),
        separator_count(s) == 1,
    ensures
        flat_parts(s) == (s, Seq::<char>::empty()),
        scoped_parts(s) == (s, Seq::<char>::empty()),
{
    lemma_cut_split(s, 1);
}

/// A scoped name of three or more segments splits alike under both
/// conventions: the base is its first two segments, which hold exactly one
/// separator, and the subpath is all the rest as one piece, starting with a
/// separator; the two put together give back the name.
pub proof fn lemma_scoped_with_subpath(s: Seq<char>)
    requires
        is_scoped(s),
        separator_count(s) >= 2,
    ensures
        flat_parts(s) == scoped_parts(s),
        scoped_parts(s).0 + scoped_parts(s).1 == s,
        separator_count(scoped_parts(s).0) == 1,
        scoped_parts(s).1.len() > 0,
        is_separator(scoped_parts(s).1[0]),
{
    lemma_cut_split(s, 1);
}

/// Under either convention the base followed by the subpath is the name
/// that was split, the subpath is empty or starts with a separator, and
/// splitting the base again gives the base itself with an empty subpath.
pub proof fn lemma_parts_stable(s: Seq<char>)
    ensures
        flat_parts(s).0 + flat_parts(s).1 == s,
        flat_parts(s).1.len() == 0 || is_separator(flat_parts(s).1[0]),
        flat_parts(flat_parts(s).0) == (flat_parts(s).0, Seq::<char>::empty()),
        scoped_parts(s).0 + scoped_parts(s).1 == s,
        scoped_parts(s).1.len() == 0 || is_separator(scoped_parts(s).1[0]),
        scoped_parts(scoped_parts(s).0) == (scoped_parts(s).0, Seq::<char>::empty()),
{
    lemma_cut_split(s, 0);
    lemma_cut_split(s, 1);
    lemma_cut(s, 0);
    lemma_cut(s, 1);
    let b1 = cut(s, 1).0;
    let b0 = cut(s, 0).0;
    lemma_cut_split(b1, 1);
    lemma_cut_split(b0, 0);
    if is_scoped(s) {
        assert(b1[0] == s[0]);
    } else if b0.len() > 0 {
        assert(b0[0] == s[0]);
    }
}

/// Finds the position of the separator that has `n` separators before it,
/// or the length of `s` if there is none.
fn find_cut(s: &str, n: usize) -> (k: usize)
    ensures
        k as int == cut_point(s@, n as nat),
{
    let len = s.unicode_len();
    let mut i: usize = 0;
    let mut left: usize = n;
    assert(s@.skip(0) =~= s@);
    while i < len
        invariant
            len == s@.len(),
            i <= len,
            left <= n,
            i + cut_point(s@.skip(i as int), left as nat) == cut_point(s@, n as nat),
        ensures
            i as int == cut_point(s@, n as nat),
        decreases len - i,
    {
        let c = s.get_char(i);
        assert(s@.skip(i as int).drop_first() =~= s@.skip(i + 1));
        if c == '/' {
            if left == 0 {
                assert(cut_point(s@.skip(i as int), 0) == 0);
                break;
            }
            left = left - 1;
        }
        i = i + 1;
    }
    i
}

/// Splits `name` at the separator that has `n` separators before it; the
/// whole name and an empty subpath if there is no such separator.
fn split_after<'a>(name: &'a str, n: usize) -> (r: (&'a str, &'a str))
    ensures
        (r.0@, r.1@) == cut(name@, n as nat),
{
    proof {
        lemma_cut(name@, n as nat);
    }
    let k = find_cut(name, n);
    let len = name.unicode_len();
    (name.substring_char(0, k), name.substring_char(k, len))
}

/// Splits a name of the flat namespace into its base package and subpath.
///
/// A name that starts with `@` keeps `@scope/pkg` as its base; any other
/// name ends its base at the first `/`. The subpath is what follows,
/// separator included, and is empty when nothing follows.
pub fn extract_npm_parts(package_name: &str) -> (r: (&str, &str))
    ensures
        (r.0@, r.1@) == flat_parts(package_name@),
{
    let scoped = package_name.unicode_len() > 0 && package_name.get_char(0) == '@';
    if scoped {
        split_after(package_name, 1)
    } else {
        split_after(package_name, 0)
    }
}

/// Splits a name of the scoped namespace into its base package and subpath:
/// the base is `@scope/pkg`, the subpath whatever follows it.
pub fn extract_jsr_parts(package_name: &str) -> (r: (&str, &str))
    ensures
        (r.0@, r.1@) == scoped_parts(package_name@),
{
    split_after(package_name, 1)
}

} // verus!
