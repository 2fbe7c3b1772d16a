//! Small verified helpers on strings: character-wise equality, conversion
//! of a `&str` into its sequence of characters, and extraction of the
//! localpart from a `@localpart:domain`-shaped user id.

use vstd::prelude::*;

use crate::condition::MatchError;

verus! {

/// Character-for-character equality of two string slices.
pub fn str_eq(a: &str, b: &str) -> (r: bool)
    ensures
        r == (a@ == b@),
{
    let alen = a.unicode_len();
    let blen = b.unicode_len();
    if alen != blen {
        return false;
    }
    let mut i: usize = 0;
    while i < alen
        invariant
            alen == a@.len(),
            blen == b@.len(),
            alen == blen,
            0 <= i <= alen,
            forall|j: int| 0 <= j < i ==> a@[j] == b@[j],
        decreases alen - i,
    {
        if a.get_char(i) != b.get_char(i) {
            return false;
        }
        i += 1;
    }
    proof {
        assert(a@ =~= b@);
    }
    true
}

/// The characters of a string slice, as a vector.
pub fn str_chars(s: &str) -> (r: Vec<char>)
    ensures
        r@ == s@,
{
    let n = s.unicode_len();
    let mut out: Vec<char> = Vec::new();
    let mut i: usize = 0;
    while i < n
        invariant
            n == s@.len(),
            0 <= i <= n,
            out@ == s@.take(i as int),
        decreases n - i,
    {
        let c = s.get_char(i);
        out.push(c);
        proof {
            assert(out@ =~= s@.take(i + 1 as int));
        }
        i += 1;
    }
    proof {
        assert(s@.take(n as int) =~= s@);
    }
    out
}

/// The index of the first `:` in the string, or `-1` if it has none.
pub open spec fn first_colon(s: Seq<char>) -> int
    decreases s.len(),
{
    if s.len() == 0 {
        -1
    } else if s[0] == ':' {
        0
    } else if first_colon(s.drop_first()) < 0 {
        -1
    } else {
        1 + first_colon(s.drop_first())
    }
}

/// The localpart of a user id: the segment between the leading `@` and the
/// first `:`. `None` when the id lacks that shape.
pub open spec fn spec_localpart(id: Seq<char>) -> Option<Seq<char>> {
    if id.len() > 0 && id[0] == '@' && first_colon(id) >= 0 {
        Some(id.subrange(1, first_colon(id)))
    } else {
        None
    }
}

proof fn lemma_first_colon_found(s: Seq<char>, k: int)
    requires
        0 <= k < s.len(),
        s[k] == ':',
        forall|j: int| 0 <= j < k ==> s[j] != ':',
    ensures
        first_colon(s) == k,
    decreases s.len(),
{
    if k > 0 {
        assert(forall|j: int| 0 <= j < k - 1 ==> s.drop_first()[j] != ':');
        lemma_first_colon_found(s.drop_first(), k - 1);
    }
}

proof fn lemma_first_colon_none(s: Seq<char>)
    requires
        forall|j: int| 0 <= j < s.len() ==> s[j] != ':',
    ensures
        first_colon(s) == -1,
    decreases s.len(),
{
    if s.len() > 0 {
        lemma_first_colon_none(s.drop_first());
    }
}

/// Extracts the localpart of a `@localpart:domain`-shaped user id, failing
/// on an id that lacks the leading `@` or the `:` separator.
pub fn get_localpart_from_id(id: &str) -> (r: Result<&str, MatchError>)
    ensures
        match (r, spec_localpart(id@)) {
            (Ok(localpart), Some(lp)) => localpart@ == lp,
            (Err(e), None) => e == MatchError::MalformedUserId,
            _ => false,
        },
{
    let n = id.unicode_len();
    if n == 0 || id.get_char(0) != '@' {
        return Err(MatchError::MalformedUserId);
    }
    let mut i: usize = 0;
    while i < n
        invariant
            n == id@.len(),
            n > 0,
            id@[0] == '@',
            0 <= i <= n,
            forall|j: int| 0 <= j < i ==> id@[j] != ':',
        decreases n - i,
    {
        if id.get_char(i) == ':' {
            proof {
                lemma_first_colon_found(id@, i as int);
            }
            return Ok(id.substring_char(1, i));
        }
        i += 1;
    }
    proof {
        lemma_first_colon_none(id@);
    }
    Err(MatchError::MalformedUserId)
}

} // verus!
