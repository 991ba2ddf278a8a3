//! Text helpers: the whitespace trimming that the client applies to what
//! the user typed.

use vstd::prelude::*;

verus! {

/// Unicode `White_Space` (the property that `char::is_whitespace` tests):
/// U+0009..=U+000D, U+0020, U+0085, U+00A0, U+1680, U+2000..=U+200A,
/// U+2028, U+2029, U+202F, U+205F and U+3000.
pub open spec fn is_white_space(c: char) -> bool {
    let n = c as u32;
    ||| 0x09 <= n <= 0x0d
    ||| n == 0x20
    ||| n == 0x85
    ||| n == 0xa0
    ||| n == 0x1680
    ||| 0x2000 <= n <= 0x200a
    ||| n == 0x2028
    ||| n == 0x2029
    ||| n == 0x202f
    ||| n == 0x205f
    ||| n == 0x3000
}

/// `s` without its leading white space.
pub open spec fn trim_start(s: Seq<char>) -> Seq<char>
    decreases s.len(),
{
    if s.len() > 0 && is_white_space(s[0]) {
        trim_start(s.drop_first())
    } else {
        s
    }
}

/// `s` without its trailing white space.
pub open spec fn trim_end(s: Seq<char>) -> Seq<char>
    decreases s.len(),
{
    if s.len() > 0 && is_white_space(s.last()) {
        trim_end(s.drop_last())
    } else {
        s
    }
}

/// `s` without leading and trailing white space.
pub open spec fn trimmed(s: Seq<char>) -> Seq<char> {
    trim_end(trim_start(s))
}

/// Every character of `s` is white space.
pub open spec fn all_white_space(s: Seq<char>) -> bool {
    forall|i: int| 0 <= i < s.len() ==> #[trigger] is_white_space(s[i])
}

/// `str::trim`: std documents that it returns the slice with leading and
/// trailing `White_Space` characters removed, which is `trimmed`.
#[verifier::external_body]
pub(crate) fn trim(s: &str) -> (r: &str)
    ensures
        r@ == trimmed(s@),
{
    s.trim()
}

proof fn lemma_trim_start_empty(s: Seq<char>)
    ensures
        trim_start(s).len() == 0 <==> all_white_space(s),
    decreases s.len(),
{
    if s.len() > 0 {
        if is_white_space(s[0]) {
            lemma_trim_start_empty(s.drop_first());
            if all_white_space(s.drop_first()) {
                assert forall|i: int| 0 <= i < s.len() implies #[trigger] is_white_space(s[i]) by {
                    if i > 0 {
                        assert(s[i] == s.drop_first()[i - 1]);
                    }
                }
            }
            if all_white_space(s) {
                assert forall|i: int| 0 <= i < s.drop_first().len() implies #[trigger] is_white_space(
                    s.drop_first()[i],
                ) by {
                    assert(s.drop_first()[i] == s[i + 1]);
                }
            }
        } else {
            assert(!is_white_space(s[0]));
        }
    }
}

proof fn lemma_trim_end_empty(s: Seq<char>)
    ensures
        trim_end(s).len() == 0 <==> all_white_space(s),
    decreases s.len(),
{
    if s.len() > 0 {
        if is_white_space(s.last()) {
            lemma_trim_end_empty(s.drop_last());
            if all_white_space(s.drop_last()) {
                assert forall|i: int| 0 <= i < s.len() implies #[trigger] is_white_space(s[i]) by {
                    if i < s.len() - 1 {
                        assert(s[i] == s.drop_last()[i]);
                    }
                }
            }
            if all_white_space(s) {
                assert forall|i: int| 0 <= i < s.drop_last().len() implies #[trigger] is_white_space(
                    s.drop_last()[i],
                ) by {
                    assert(s.drop_last()[i] == s[i]);
                }
            }
        } else {
            assert(!is_white_space(s[s.len() - 1]));
        }
    }
}

proof fn lemma_trim_start_all_white(s: Seq<char>)
    requires
        !all_white_space(s),
    ensures
        !all_white_space(trim_start(s)),
    decreases s.len(),
{
    if s.len() > 0 && is_white_space(s[0]) {
        if all_white_space(s.drop_first()) {
            assert forall|i: int| 0 <= i < s.len() implies #[trigger] is_white_space(s[i]) by {
                if i > 0 {
                    assert(s[i] == s.drop_first()[i - 1]);
                }
            }
        }
        lemma_trim_start_all_white(s.drop_first());
    }
}

/// Trimming leaves nothing exactly when the text is all white space.
pub proof fn law_blank_text_trims_to_nothing(s: Seq<char>)
    ensures
        trimmed(s).len() == 0 <==> all_white_space(s),
{
    lemma_trim_start_empty(s);
    lemma_trim_end_empty(trim_start(s));
    if !all_white_space(s) {
        lemma_trim_start_all_white(s);
    }
}

proof fn lemma_trim_start_shape(s: Seq<char>) -> (i: int)
    ensures
        0 <= i <= s.len(),
        trim_start(s) == s.subrange(i, s.len() as int),
        forall|k: int| 0 <= k < i ==> #[trigger] is_white_space(s[k]),
        i < s.len() ==> !is_white_space(s[i]),
    decreases s.len(),
{
    if s.len() > 0 && is_white_space(s[0]) {
        let t = s.drop_first();
        let i0 = lemma_trim_start_shape(t);
        assert(t.subrange(i0, t.len() as int) =~= s.subrange(i0 + 1, s.len() as int));
        assert forall|k: int| 0 <= k < i0 + 1 implies #[trigger] is_white_space(s[k]) by {
            if k > 0 {
                assert(s[k] == t[k - 1]);
            }
        }
        if i0 + 1 < s.len() {
            assert(s[i0 + 1] == t[i0]);
        }
        i0 + 1
    } else {
        assert(s.subrange(0, s.len() as int) =~= s);
        0
    }
}

proof fn lemma_trim_end_shape(s: Seq<char>) -> (j: int)
    ensures
        0 <= j <= s.len(),
        trim_end(s) == s.subrange(0, j),
        forall|k: int| j <= k < s.len() ==> #[trigger] is_white_space(s[k]),
        j > 0 ==> !is_white_space(s[j - 1]),
    decreases s.len(),
{
    if s.len() > 0 && is_white_space(s.last()) {
        let t = s.drop_last();
        let j0 = lemma_trim_end_shape(t);
        assert(t.subrange(0, j0) =~= s.subrange(0, j0));
        assert forall|k: int| j0 <= k < s.len() implies #[trigger] is_white_space(s[k]) by {
            if k < s.len() - 1 {
                assert(s[k] == t[k]);
            }
        }
        if j0 > 0 {
            assert(s[j0 - 1] == t[j0 - 1]);
        }
        j0
    } else {
        assert(s.subrange(0, s.len() as int) =~= s);
        s.len() as int
    }
}

/// Trimming keeps one contiguous stretch of the text, from position `r.0`
/// up to `r.1`: everything before and after it is white space, and the
/// stretch, when not empty, neither starts nor ends with white space.
pub proof fn law_trim_removes_only_outer_white_space(s: Seq<char>) -> (r: (int, int))
    ensures
        0 <= r.0 <= r.1 <= s.len(),
        trimmed(s) == s.subrange(r.0, r.1),
        forall|k: int| 0 <= k < r.0 ==> #[trigger] is_white_space(s[k]),
        forall|k: int| r.1 <= k < s.len() ==> #[trigger] is_white_space(s[k]),
        r.0 < r.1 ==> !is_white_space(s[r.0]) && !is_white_space(s[r.1 - 1]),
{
    let i = lemma_trim_start_shape(s);
    let t = s.subrange(i, s.len() as int);
    let j = lemma_trim_end_shape(t);
    assert(t.subrange(0, j) =~= s.subrange(i, i + j));
    assert forall|k: int| i + j <= k < s.len() implies #[trigger] is_white_space(s[k]) by {
        assert(s[k] == t[k - i]);
    }
    if j > 0 {
        assert(s[i] == t[0]);
        assert(s[i + j - 1] == t[j - 1]);
    }
    (i, i + j)
}

} // verus!
