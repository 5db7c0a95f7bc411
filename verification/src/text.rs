//! Slash handling for joining a URL and a path segment.

use vstd::prelude::*;

verus! {

/// Whether the last character of `s` is a slash.
pub open spec fn ends_with_slash(s: Seq<char>) -> bool {
    s.len() > 0 && s.last() == '/'
}

/// Whether the first character of `s` is a slash.
pub open spec fn starts_with_slash(s: Seq<char>) -> bool {
    s.len() > 0 && s[0] == '/'
}

/// `s` without the slashes it begins with.
pub open spec fn without_leading_slashes(s: Seq<char>) -> Seq<char>
    decreases s.len(),
{
    if starts_with_slash(s) {
        without_leading_slashes(s.drop_first())
    } else {
        s
    }
}

/// `s` without its last character, if that is a slash.
pub open spec fn without_final_slash(s: Seq<char>) -> Seq<char> {
    if ends_with_slash(s) {
        s.drop_last()
    } else {
        s
    }
}

/// `base` and `segment` with one slash between them: the base keeps a slash it ends with and
/// gets one if it has none, and the segment loses every slash it begins with.
pub open spec fn joined(base: Seq<char>, segment: Seq<char>) -> Seq<char> {
    without_final_slash(base) + seq!['/'] + without_leading_slashes(segment)
}

/// Skipping a run of slashes at the front of `s` leaves what `without_leading_slashes` gives.
pub proof fn lemma_skip_slashes(s: Seq<char>, k: int)
    requires
        0 <= k <= s.len(),
        forall|j: int| 0 <= j < k ==> s[j] == '/',
        k < s.len() ==> s[k] != '/',
    ensures
        without_leading_slashes(s) == s.skip(k),
    decreases k,
{
    if k == 0 {
        assert(s.skip(0) =~= s);
    } else {
        let t = s.drop_first();
        assert forall|j: int| 0 <= j < k - 1 implies t[j] == '/' by {
            assert(t[j] == s[j + 1]);
        }
        lemma_skip_slashes(t, k - 1);
        assert(t.skip(k - 1) =~= s.skip(k));
    }
}

/// What `without_leading_slashes` returns is a suffix of its argument that begins with no
/// slash, and everything before it is a slash.
pub proof fn lemma_without_leading_slashes(s: Seq<char>)
    ensures
        !starts_with_slash(without_leading_slashes(s)),
        without_leading_slashes(s).len() <= s.len(),
        without_leading_slashes(s) == s.skip(s.len() - without_leading_slashes(s).len()),
        forall|j: int|
            0 <= j < s.len() - without_leading_slashes(s).len() ==> s[j] == '/',
    decreases s.len(),
{
    if starts_with_slash(s) {
        let t = s.drop_first();
        lemma_without_leading_slashes(t);
        let r = without_leading_slashes(t);
        assert(t.skip(t.len() - r.len()) =~= s.skip(s.len() - r.len()));
        assert forall|j: int| 0 <= j < s.len() - r.len() implies s[j] == '/' by {
            if j > 0 {
                assert(s[j] == t[j - 1]);
            }
        }
    } else {
        assert(s.skip(0) =~= s);
    }
}

/// Whether `s` ends with two slashes or more.
pub open spec fn ends_with_two_slashes(s: Seq<char>) -> bool {
    s.len() > 1 && s[s.len() - 1] == '/' && s[s.len() - 2] == '/'
}

/// Whether position `at` of `s` holds a slash with no slash next to it on either side.
pub open spec fn lone_slash_at(s: Seq<char>, at: int) -> bool {
    &&& 0 <= at < s.len()
    &&& s[at] == '/'
    &&& at > 0 ==> s[at - 1] != '/'
    &&& at + 1 < s.len() ==> s[at + 1] != '/'
}

/// The separator is never left out: whatever slashes the two sides bring, the joined text
/// begins with the whole base, then holds one slash where base and segment meet, then the
/// segment from its first character that is no slash, and nothing else.
pub proof fn lemma_join_keeps_separator(base: Seq<char>, segment: Seq<char>)
    ensures
        ({
            let at = without_final_slash(base).len() as int;
            let whole = joined(base, segment);
            &&& whole.len() == at + 1 + without_leading_slashes(segment).len()
            &&& base.len() <= whole.len()
            &&& whole.take(base.len() as int) == base
            &&& whole[at] == '/'
            &&& whole.skip(at + 1) == without_leading_slashes(segment)
            &&& at + 1 < whole.len() ==> whole[at + 1] != '/'
        }),
{
    let at = without_final_slash(base).len() as int;
    let rest = without_leading_slashes(segment);
    let whole = joined(base, segment);
    lemma_without_leading_slashes(segment);
    assert(whole.take(base.len() as int) =~= base);
    assert(whole.skip(at + 1) =~= rest);
    if at + 1 < whole.len() {
        assert(whole[at + 1] == rest[0]);
    }
}

/// No double slash at the join: unless the base itself ends with two slashes, the slash
/// where base and segment meet has no slash before it and none after it. A joined text
/// ends with two slashes only if the segment, without the slashes it begins with, does.
pub proof fn lemma_join_has_no_double_slash(base: Seq<char>, segment: Seq<char>)
    requires
        !ends_with_two_slashes(base),
    ensures
        lone_slash_at(joined(base, segment), without_final_slash(base).len() as int),
        !ends_with_two_slashes(without_leading_slashes(segment)) ==> !ends_with_two_slashes(
            joined(base, segment),
        ),
{
    let stem = without_final_slash(base);
    let at = stem.len() as int;
    let rest = without_leading_slashes(segment);
    let whole = joined(base, segment);
    lemma_join_keeps_separator(base, segment);
    if at > 0 {
        assert(whole[at - 1] == stem[at - 1]);
    }
    if !ends_with_two_slashes(rest) && whole.len() > 1 {
        let n = whole.len() as int;
        if rest.len() > 1 {
            assert(whole[n - 1] == rest[rest.len() - 1]);
            assert(whole[n - 2] == rest[rest.len() - 2]);
        } else if rest.len() == 1 {
            assert(whole[n - 1] == rest[0]);
        } else {
            assert(whole[n - 2] == stem[at - 1]);
        }
    }
}

/// Tells whether `s` ends with a slash.
pub fn has_final_slash(s: &str) -> (yes: bool)
    ensures
        yes == ends_with_slash(s@),
{
    let n: usize = s.unicode_len();
    n > 0 && s.get_char(n - 1) == '/'
}

/// Returns `s` from its first character that is no slash.
pub fn trim_leading_slashes(s: &str) -> (rest: &str)
    ensures
        rest@ == without_leading_slashes(s@),
{
    let n: usize = s.unicode_len();
    let mut i: usize = 0;
    while i < n && s.get_char(i) == '/'
        invariant
            i <= n,
            n == s@.len(),
            forall|j: int| 0 <= j < i ==> s@[j] == '/',
        decreases n - i,
    {
        i += 1;
    }
    proof {
        lemma_skip_slashes(s@, i as int);
        assert(s@.skip(i as int) =~= s@.subrange(i as int, n as int));
    }
    s.substring_char(i, n)
}

} // verus!
