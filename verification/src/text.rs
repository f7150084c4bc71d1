//! Character-sequence helpers shared by the update builder and the report
//! renderer: joining parts with a separator, and taking the first line of a
//! commit message.

use vstd::prelude::*;
use vstd::string::StrSliceExecFns;
use vstd::string::StringExecFns;

verus! {

/// The parts joined into one sequence, with `sep` between consecutive parts.
pub open spec fn join_with(parts: Seq<Seq<char>>, sep: Seq<char>) -> Seq<char>
    decreases parts.len(),
{
    if parts.len() == 0 {
        Seq::empty()
    } else if parts.len() == 1 {
        parts[0]
    } else {
        join_with(parts.drop_last(), sep) + sep + parts.last()
    }
}

/// Appending one more part extends the join by a separator (when anything
/// precedes it) and the part itself.
pub proof fn lemma_join_with_push(parts: Seq<Seq<char>>, p: Seq<char>, sep: Seq<char>)
    ensures
        join_with(parts.push(p), sep) == if parts.len() == 0 {
            p
        } else {
            (join_with(parts, sep) + sep + p)
        },
{
    assert(parts.push(p).drop_last() =~= parts);
    assert(parts.push(p).last() == p);
}

/// The prefix of `s` up to, and not including, its first `'\n'`; all of `s`
/// when no `'\n'` occurs.
pub open spec fn first_line_view(s: Seq<char>) -> Seq<char>
    decreases s.len(),
{
    if s.len() == 0 {
        s
    } else if s[0] == '\n' {
        Seq::empty()
    } else {
        seq![s[0]] + first_line_view(s.drop_first())
    }
}

/// If the characters before position `k` are all unequal to `'\n'` and the
/// one at `k` (when any) is `'\n'`, the first line is exactly the prefix of
/// length `k`.
pub proof fn lemma_first_line_at(s: Seq<char>, k: int)
    requires
        0 <= k <= s.len(),
        forall|j: int| 0 <= j < k ==> s[j] != '\n',
        k < s.len() ==> s[k] == '\n',
    ensures
        first_line_view(s) == s.subrange(0, k),
    decreases k,
{
    if k == 0 {
        if s.len() == 0 {
            assert(first_line_view(s) =~= s.subrange(0, 0));
        } else {
            assert(first_line_view(s) =~= s.subrange(0, 0));
        }
    } else {
        assert(s[0] != '\n');
        lemma_first_line_at(s.drop_first(), k - 1);
        assert(seq![s[0]] + s.drop_first().subrange(0, k - 1) =~= s.subrange(0, k));
    }
}

/// The first line never holds a `'\n'` itself.
pub proof fn lemma_first_line_no_newline(s: Seq<char>)
    ensures
        forall|j: int| 0 <= j < first_line_view(s).len() ==> first_line_view(s)[j] != '\n',
    decreases s.len(),
{
    if s.len() == 0 || s[0] == '\n' {
    } else {
        lemma_first_line_no_newline(s.drop_first());
        assert forall|j: int| 0 <= j < first_line_view(s).len() implies first_line_view(s)[j]
            != '\n' by {
            if j > 0 {
                assert(first_line_view(s)[j] == first_line_view(s.drop_first())[j - 1]);
            }
        }
    }
}

/// Extracts the first line of `s`: everything before the first `'\n'`, or all
/// of `s` when it has none.
pub fn first_line(s: &str) -> (r: String)
    ensures
        r@ == first_line_view(s@),
{
    let n = s.unicode_len();
    let mut i: usize = 0;
    while i < n
        invariant
            i <= n,
            n == s@.len(),
            forall|j: int| 0 <= j < i ==> s@[j] != '\n',
        decreases n - i,
    {
        if s.get_char(i) == '\n' {
            proof {
                lemma_first_line_at(s@, i as int);
            }
            return String::from_str(s.substring_char(0, i));
        }
        i = i + 1;
    }
    proof {
        lemma_first_line_at(s@, n as int);
    }
    String::from_str(s.substring_char(0, n))
}

} // verus!
