//! The session token: the value of the multiplexer's environment variable,
//! cut down to the part that identifies the session.

use vstd::prelude::*;
use vstd::slice::{slice_subrange, slice_to_vec};
use crate::error::{DriverError, ErrorView};

verus! {

/// The byte that separates the fields of a session token: a comma.
pub const FIELD_SEPARATOR: u8 = 0x2c;

/// Number of field separators in `s`.
pub open spec fn comma_count(s: Seq<u8>) -> nat
    decreases s.len(),
{
    if s.len() == 0 {
        0
    } else {
        comma_count(s.drop_last()) + if s.last() == FIELD_SEPARATOR {
            1nat
        } else {
            0nat
        }
    }
}

/// `i` is the position of the second field separator of `s`.
pub open spec fn is_second_comma(s: Seq<u8>, i: int) -> bool {
    &&& 0 <= i < s.len()
    &&& s[i] == FIELD_SEPARATOR
    &&& comma_count(s.take(i)) == 1
}

/// Length of the part of `s` that is forwarded: everything before the second
/// field separator, or all of `s` when it has fewer than two.
pub open spec fn kept_len(s: Seq<u8>) -> int {
    if exists|i: int| is_second_comma(s, i) {
        choose|i: int| is_second_comma(s, i)
    } else {
        s.len() as int
    }
}

/// The token that is forwarded for the raw value `s`.
pub open spec fn filtered(s: Seq<u8>) -> Seq<u8> {
    s.take(kept_len(s))
}

/// Taking one more byte adds one to the count exactly when that byte is a separator.
pub proof fn lemma_count_step(s: Seq<u8>, i: int)
    requires
        0 <= i < s.len(),
    ensures
        comma_count(s.take(i + 1)) == comma_count(s.take(i)) + if s[i] == FIELD_SEPARATOR {
            1nat
        } else {
            0nat
        },
{
    assert(s.take(i + 1).drop_last() =~= s.take(i));
}

/// A longer prefix has at least as many separators as a shorter one.
pub proof fn lemma_count_monotone(s: Seq<u8>, i: int, j: int)
    requires
        0 <= i <= j <= s.len(),
    ensures
        comma_count(s.take(i)) <= comma_count(s.take(j)),
    decreases j - i,
{
    if i < j {
        lemma_count_monotone(s, i, j - 1);
        lemma_count_step(s, j - 1);
    }
}

/// A sequence has at most one second separator.
pub proof fn lemma_second_comma_unique(s: Seq<u8>, i: int, j: int)
    requires
        is_second_comma(s, i),
        is_second_comma(s, j),
    ensures
        i == j,
{
    if i < j {
        lemma_count_step(s, i);
        lemma_count_monotone(s, i + 1, j);
    } else if j < i {
        lemma_count_step(s, j);
        lemma_count_monotone(s, j + 1, i);
    }
}

/// A second separator exists exactly when there are at least two separators.
pub proof fn lemma_second_comma_exists(s: Seq<u8>)
    ensures
        comma_count(s) >= 2 <==> exists|i: int| is_second_comma(s, i),
    decreases s.len(),
{
    assert(s.take(s.len() as int) =~= s);
    if s.len() == 0 {
    } else {
        let n = s.len() - 1;
        let front = s.drop_last();
        assert(front =~= s.take(n));
        lemma_second_comma_exists(front);
        assert forall|i: int| 0 <= i <= n implies #[trigger] front.take(i) == s.take(i) by {
            assert(front.take(i) =~= s.take(i));
        }
        if comma_count(s) >= 2 {
            if comma_count(front) >= 2 {
                let i = choose|i: int| is_second_comma(front, i);
                assert(front.take(i) == s.take(i));
                assert(is_second_comma(s, i));
            } else {
                assert(is_second_comma(s, n));
            }
        }
        if exists|i: int| is_second_comma(s, i) {
            let i = choose|i: int| is_second_comma(s, i);
            lemma_count_step(s, i);
            lemma_count_monotone(s, i + 1, s.len() as int);
        }
    }
}

/// What is kept of a raw value, by the number of its separators: with fewer than
/// two the value itself, else exactly what stands before the second.
pub proof fn lemma_filtered_cases(s: Seq<u8>)
    ensures
        comma_count(s) < 2 ==> filtered(s) == s,
        comma_count(s) >= 2 ==> is_second_comma(s, kept_len(s)),
        comma_count(filtered(s)) == if comma_count(s) < 2 {
            comma_count(s)
        } else {
            1
        },
{
    lemma_second_comma_exists(s);
    if comma_count(s) < 2 {
        assert(s.take(s.len() as int) =~= s);
    }
}

/// Filtering is idempotent: a filtered token has fewer than two separators, so
/// filtering it again changes nothing.
pub proof fn lemma_filter_idempotent(s: Seq<u8>)
    ensures
        comma_count(filtered(s)) < 2,
        filtered(filtered(s)) == filtered(s),
{
    lemma_filtered_cases(s);
    lemma_filtered_cases(filtered(s));
}

/// Cuts the raw value of the session variable down to its first two
/// comma-separated fields. A value with fewer than two commas is returned whole.
pub fn filter_tmux(tmux: &[u8]) -> (kept: &[u8])
    ensures
        kept@ == filtered(tmux@),
        comma_count(tmux@) < 2 ==> kept@ == tmux@,
        comma_count(tmux@) >= 2 ==> is_second_comma(tmux@, kept@.len() as int) && kept@
            == tmux@.take(kept@.len() as int),
{
    let mut seen_one = false;
    let mut i: usize = 0;
    while i < tmux.len()
        invariant
            0 <= i <= tmux@.len(),
            comma_count(tmux@.take(i as int)) == if seen_one {
                1nat
            } else {
                0nat
            },
        decreases tmux@.len() - i,
    {
        if tmux[i] == FIELD_SEPARATOR {
            if seen_one {
                proof {
                    assert(is_second_comma(tmux@, i as int));
                    lemma_second_comma_exists(tmux@);
                    lemma_second_comma_unique(tmux@, i as int, kept_len(tmux@));
                }
                let kept = slice_subrange(tmux, 0, i);
                assert(kept@ =~= tmux@.take(i as int));
                return kept;
            }
            seen_one = true;
        }
        proof {
            lemma_count_step(tmux@, i as int);
        }
        i += 1;
    }
    proof {
        assert(tmux@.take(i as int) =~= tmux@);
        lemma_second_comma_exists(tmux@);
    }
    tmux
}

/// Resolves the session token from the value of the session variable, `None`
/// standing for a variable that is not set: a value is filtered, a missing one
/// is a failure.
pub fn session_token(raw: Option<Vec<u8>>) -> (token: Result<Vec<u8>, DriverError>)
    ensures
        match raw {
            Some(value) => token matches Ok(t) && t@ == filtered(value@),
            None => token matches Err(e) && e@ == ErrorView::MissingEnvironment,
        },
{
    match raw {
        Some(value) => Ok(slice_to_vec(filter_tmux(value.as_slice()))),
        None => Err(DriverError::MissingEnvironment),
    }
}

} // verus!
