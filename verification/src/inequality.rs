//! The member-count inequality expression: an operator prefix drawn from
//! `=`, `<`, `>` followed by one or more decimal digits. The parser accepts
//! exactly that grammar; of the accepted operator prefixes only the six
//! recognized ones (``, `==`, `<`, `>`, `>=`, `<=`) compare, every other
//! prefix evaluates to false rather than erroring.

use vstd::prelude::*;

use crate::condition::MatchError;
use crate::strutil::str_chars;

verus! {

/// A character the operator prefix may contain.
pub open spec fn is_op_char(c: char) -> bool {
    c == '=' || c == '<' || c == '>'
}

/// A decimal digit.
pub open spec fn is_digit_char(c: char) -> bool {
    48 <= c as u32 <= 57
}

/// The value of a decimal digit.
pub open spec fn digit_val(c: char) -> int {
    c as u32 - 48
}

/// The length of the maximal operator-character prefix.
pub open spec fn op_len(s: Seq<char>) -> int
    decreases s.len(),
{
    if s.len() == 0 || !is_op_char(s[0]) {
        0
    } else {
        1 + op_len(s.drop_first())
    }
}

/// Every character is a decimal digit.
pub open spec fn all_digits(s: Seq<char>) -> bool {
    forall|i: int| 0 <= i < s.len() ==> is_digit_char(s[i])
}

/// The value of a digit string, most significant digit first.
pub open spec fn digits_val(s: Seq<char>) -> int
    decreases s.len(),
{
    if s.len() == 0 {
        0
    } else {
        10 * digits_val(s.drop_last()) + digit_val(s.last())
    }
}

/// The string fits the grammar: an operator prefix, then one or more
/// decimal digits.
pub open spec fn ineq_well_formed(s: Seq<char>) -> bool {
    op_len(s) < s.len() && all_digits(s.skip(op_len(s)))
}

/// What an operator prefix says of `count` against `rhs`: the empty prefix
/// and `==` test equality, `<`, `>`, `>=`, `<=` compare as usual, and every
/// other prefix is false.
pub open spec fn eval_ineq_op(op: Seq<char>, count: u64, rhs: u64) -> bool {
    if op.len() == 0 || op == seq!['=', '='] {
        count == rhs
    } else if op == seq!['<'] {
        count < rhs
    } else if op == seq!['>'] {
        count > rhs
    } else if op == seq!['>', '='] {
        count >= rhs
    } else if op == seq!['<', '='] {
        count <= rhs
    } else {
        false
    }
}

/// The verdict of an `is` clause on `count`: `None` when the clause fails
/// the grammar or its number does not fit `u64`, the operator's verdict on
/// the parsed number otherwise.
pub open spec fn ineq_verdict(s: Seq<char>, count: u64) -> Option<bool> {
    if !ineq_well_formed(s) {
        None
    } else if digits_val(s.skip(op_len(s))) > u64::MAX {
        None
    } else {
        Some(eval_ineq_op(s.take(op_len(s)), count, digits_val(s.skip(op_len(s))) as u64))
    }
}

proof fn lemma_op_len_unique(s: Seq<char>, k: int)
    requires
        0 <= k <= s.len(),
        forall|j: int| 0 <= j < k ==> is_op_char(s[j]),
        k < s.len() ==> !is_op_char(s[k]),
    ensures
        op_len(s) == k,
    decreases s.len(),
{
    if s.len() == 0 {
    } else if k == 0 {
    } else {
        assert(is_op_char(s[0]));
        assert(forall|j: int| 0 <= j < k - 1 ==> is_op_char(s.drop_first()[j]));
        lemma_op_len_unique(s.drop_first(), k - 1);
    }
}

proof fn lemma_digits_val_nonneg(s: Seq<char>)
    requires
        all_digits(s),
    ensures
        digits_val(s) >= 0,
    decreases s.len(),
{
    if s.len() > 0 {
        assert(all_digits(s.drop_last()));
        lemma_digits_val_nonneg(s.drop_last());
    }
}

proof fn lemma_digits_val_prefix(s: Seq<char>, m: int)
    requires
        all_digits(s),
        0 <= m <= s.len(),
    ensures
        digits_val(s.take(m)) <= digits_val(s),
    decreases s.len() - m,
{
    if m == s.len() {
        assert(s.take(m) =~= s);
    } else {
        lemma_digits_val_prefix(s, m + 1);
        assert(s.take(m + 1).drop_last() =~= s.take(m));
        assert(all_digits(s.take(m)));
        lemma_digits_val_nonneg(s.take(m));
        assert(digits_val(s.take(m + 1)) == 10 * digits_val(s.take(m)) + digit_val(s[m]));
    }
}

/// Parses and evaluates an `is` clause against the member count. Returns
/// the verdict that [`ineq_verdict`] describes, or the grammar error.
pub fn eval_ineq(is_clause: &str, count: u64) -> (r: Result<bool, MatchError>)
    ensures
        r == (match ineq_verdict(is_clause@, count) {
            Some(verdict) => Ok::<bool, MatchError>(verdict),
            None => Err::<bool, MatchError>(MatchError::BadInequalityExpression),
        }),
{
    let chars = str_chars(is_clause);
    let ghost s = is_clause@;
    let n = chars.len();

    // Measure the operator prefix.
    let mut i: usize = 0;
    while i < n && (chars[i] == '=' || chars[i] == '<' || chars[i] == '>')
        invariant
            chars@ == s,
            s == is_clause@,
            n == s.len(),
            0 <= i <= n,
            forall|j: int| 0 <= j < i ==> is_op_char(s[j]),
        decreases n - i,
    {
        i += 1;
    }
    proof {
        lemma_op_len_unique(s, i as int);
    }

    if i == n {
        // No digits at all: the grammar is not met.
        return Err(MatchError::BadInequalityExpression);
    }

    // Parse the digits, watching for overflow.
    let mut rhs: u64 = 0;
    let mut j: usize = i;
    while j < n
        invariant
            chars@ == s,
            s == is_clause@,
            n == s.len(),
            op_len(s) == i,
            i <= j <= n,
            i < n,
            all_digits(s.subrange(i as int, j as int)),
            rhs == digits_val(s.subrange(i as int, j as int)),
        decreases n - j,
    {
        let c = chars[j];
        let cv = c as u32;
        if cv < 48 || cv > 57 {
            // A non-digit after the operator prefix: the grammar is not met.
            proof {
                assert(!is_digit_char(s[j as int]));
                assert(s.skip(i as int)[j - i] == s[j as int]);
                assert(!all_digits(s.skip(i as int)));
            }
            return Err(MatchError::BadInequalityExpression);
        }
        let d: u64 = (cv - 48) as u64;
        proof {
            assert(s.subrange(i as int, j + 1 as int).drop_last() =~= s.subrange(
                i as int,
                j as int,
            ));
            assert(s.subrange(i as int, j + 1 as int).last() == s[j as int]);
        }
        if rhs > 1844674407370955161 || (rhs == 1844674407370955161 && d > 5) {
            // The number does not fit u64; if the rest of the clause fits
            // the grammar at all, its value only grows from here.
            proof {
                if ineq_well_formed(s) {
                    assert(all_digits(s.skip(i as int)));
                    assert(s.skip(i as int).take(j + 1 - i as int) =~= s.subrange(
                        i as int,
                        j + 1 as int,
                    ));
                    lemma_digits_val_prefix(s.skip(i as int), j + 1 - i as int);
                    assert(digits_val(s.skip(i as int)) > u64::MAX);
                }
            }
            return Err(MatchError::BadInequalityExpression);
        }
        rhs = rhs * 10 + d;
        proof {
            assert(all_digits(s.subrange(i as int, j + 1 as int)));
        }
        j += 1;
    }
    proof {
        assert(s.subrange(i as int, n as int) =~= s.skip(i as int));
        assert(ineq_well_formed(s));
        assert(digits_val(s.skip(op_len(s))) == rhs);
    }

    // Dispatch on the operator prefix; only the six recognized operator
    // strings compare, everything else is false.
    let ghost op = s.take(i as int);
    let verdict: bool = if i == 0 {
        proof {
            assert(op.len() == 0);
        }
        count == rhs
    } else if i == 1 {
        let c0 = chars[0];
        if c0 == '<' {
            proof {
                assert(op =~= seq!['<']);
            }
            count < rhs
        } else if c0 == '>' {
            proof {
                assert(op =~= seq!['>']);
            }
            count > rhs
        } else {
            proof {
                assert(op.len() == 1);
                assert(op[0] == '=');
            }
            false
        }
    } else if i == 2 {
        let c0 = chars[0];
        let c1 = chars[1];
        if c0 == '=' && c1 == '=' {
            proof {
                assert(op =~= seq!['=', '=']);
            }
            count == rhs
        } else if c0 == '>' && c1 == '=' {
            proof {
                assert(op =~= seq!['>', '=']);
            }
            count >= rhs
        } else if c0 == '<' && c1 == '=' {
            proof {
                assert(op =~= seq!['<', '=']);
            }
            count <= rhs
        } else {
            proof {
                assert(op.len() == 2);
                assert(op[0] == s[0] && op[1] == s[1]);
            }
            false
        }
    } else {
        proof {
            assert(op.len() >= 3);
        }
        false
    };
    proof {
        assert(verdict == eval_ineq_op(op, count, rhs));
    }
    Ok(verdict)
}

} // verus!
