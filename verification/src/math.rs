//! The numeric evaluator: multiply a sequence of decimal tokens.

use vstd::prelude::*;
use crate::CommandError;

verus! {

/// A decimal digit, `'0'` through `'9'`.
pub open spec fn is_digit(c: char) -> bool {
    48 <= c as int && c as int <= 57
}

/// The numeric value of one digit.
pub open spec fn digit_val(c: char) -> nat
    recommends
        is_digit(c),
{
    (c as int - 48) as nat
}

/// A token is valid when it is nonempty and made of digits only:
/// no sign, no decimal point, no separators.
pub open spec fn valid_token(s: Seq<char>) -> bool {
    s.len() > 0 && (forall|i: int| 0 <= i < s.len() ==> is_digit(#[trigger] s[i]))
}

/// The value of a digit string read in base ten.
pub open spec fn token_val(s: Seq<char>) -> nat
    decreases s.len(),
{
    if s.len() == 0 {
        0
    } else {
        token_val(s.drop_last()) * 10 + digit_val(s.last())
    }
}

/// The product of the values of a sequence of tokens.
pub open spec fn product_val(tokens: Seq<Seq<char>>) -> nat
    decreases tokens.len(),
{
    if tokens.len() == 0 {
        1
    } else {
        product_val(tokens.drop_last()) * token_val(tokens.last())
    }
}

/// The views of a sequence of argument strings.
pub open spec fn arg_views(args: Seq<String>) -> Seq<Seq<char>> {
    args.map_values(|s: String| s@)
}

/// Arguments are acceptable when there are at least two and every token is
/// a nonempty digit string.
pub open spec fn valid_multiply_args(tokens: Seq<Seq<char>>) -> bool {
    tokens.len() >= 2 && (forall|i: int| 0 <= i < tokens.len() ==> valid_token(#[trigger] tokens[i]))
}

/// Parses one token as a base-ten natural number, refusing anything that is
/// not a digit string or does not fit in a `u64`.
pub fn parse_token(s: &str) -> (r: Option<u64>)
    ensures
        match r {
            Some(v) => valid_token(s@) && v == token_val(s@),
            None => !valid_token(s@) || token_val(s@) > u64::MAX,
        },
{
    let n = s.unicode_len();
    if n == 0 {
        return None;
    }
    let mut acc: u64 = 0;
    let mut i: usize = 0;
    while i < n
        invariant
            0 < n == s@.len(),
            0 <= i <= n,
            forall|j: int| 0 <= j < i ==> is_digit(#[trigger] s@[j]),
            acc == token_val(s@.subrange(0, i as int)),
        decreases n - i,
    {
        let c = s.get_char(i);
        let u = c as u32;
        if u < 48 || u > 57 {
            return None;
        }
        let d: u64 = (u - 48) as u64;
        proof {
            assert(s@.subrange(0, i + 1).drop_last() =~= s@.subrange(0, i as int));
            assert(s@.subrange(0, i + 1).last() == s@[i as int]);
        }
        let shifted = match acc.checked_mul(10) {
            Some(m) => m,
            None => {
                proof {
                    lemma_token_val_prefix_bound(s@, i + 1);
                }
                return None;
            }
        };
        let next = match shifted.checked_add(d) {
            Some(a) => a,
            None => {
                proof {
                    lemma_token_val_prefix_bound(s@, i + 1);
                }
                return None;
            }
        };
        acc = next;
        i = i + 1;
    }
    proof {
        assert(s@.subrange(0, n as int) =~= s@);
    }
    Some(acc)
}

/// Once a prefix of a digit string exceeds `u64::MAX`, so does the whole
/// string: appending digits never decreases the value.
proof fn lemma_token_val_prefix_bound(s: Seq<char>, i: int)
    requires
        0 <= i <= s.len(),
    ensures
        token_val(s) >= token_val(s.subrange(0, i)),
    decreases s.len() - i,
{
    if i < s.len() {
        lemma_token_val_prefix_bound(s, i + 1);
        assert(s.subrange(0, i + 1).drop_last() =~= s.subrange(0, i));
        assert(token_val(s.subrange(0, i + 1)) == token_val(s.subrange(0, i)) * 10 + digit_val(
            s.subrange(0, i + 1).last(),
        ));
        assert(token_val(s.subrange(0, i)) * 10 >= token_val(s.subrange(0, i)) * 1) by (nonlinear_arith);
    } else {
        assert(s.subrange(0, i) =~= s);
    }
}

/// If some token is zero the whole product is zero.
proof fn lemma_product_with_zero(tokens: Seq<Seq<char>>, i: int)
    requires
        0 <= i < tokens.len(),
        token_val(tokens[i]) == 0,
    ensures
        product_val(tokens) == 0,
    decreases tokens.len(),
{
    if i == tokens.len() - 1 {
        assert(tokens.last() == tokens[i]);
        assert(product_val(tokens.drop_last()) * 0 == 0) by (nonlinear_arith);
    } else {
        lemma_product_with_zero(tokens.drop_last(), i);
        assert(0 * token_val(tokens.last()) == 0) by (nonlinear_arith);
    }
}

/// With every token at least one, the product never shrinks as tokens are
/// appended.
proof fn lemma_product_prefix_bound(tokens: Seq<Seq<char>>, i: int)
    requires
        0 <= i <= tokens.len(),
        forall|j: int| 0 <= j < tokens.len() ==> token_val(#[trigger] tokens[j]) >= 1,
    ensures
        product_val(tokens) >= product_val(tokens.subrange(0, i)),
    decreases tokens.len() - i,
{
    if i < tokens.len() {
        lemma_product_prefix_bound(tokens, i + 1);
        assert(tokens.subrange(0, i + 1).drop_last() =~= tokens.subrange(0, i));
        assert(tokens.subrange(0, i + 1).last() == tokens[i]);
        assert(product_val(tokens.subrange(0, i + 1)) == product_val(tokens.subrange(0, i))
            * token_val(tokens[i]));
        assert(product_val(tokens.subrange(0, i)) * token_val(tokens[i]) >= product_val(
            tokens.subrange(0, i),
        ) * 1) by (nonlinear_arith)
            requires
                token_val(tokens[i]) >= 1,
        ;
    } else {
        assert(tokens.subrange(0, i) =~= tokens);
    }
}

/// Multiplies the argument tokens. Succeeds exactly when there are at least
/// two arguments, every one is a plain digit string whose value fits in a
/// `u64`, and so does their product; any other input is an invalid argument.
pub fn multiply(args: &Vec<String>) -> (r: Result<u64, CommandError>)
    ensures
        match r {
            Ok(p) => {
                &&& valid_multiply_args(arg_views(args@))
                &&& forall|i: int|
                    0 <= i < args@.len() ==> token_val(#[trigger] arg_views(args@)[i]) <= u64::MAX
                &&& p == product_val(arg_views(args@))
            },
            Err(e) => {
                &&& e == CommandError::InvalidArgument
                &&& {
                    ||| !valid_multiply_args(arg_views(args@))
                    ||| exists|i: int|
                        0 <= i < args@.len() && token_val(#[trigger] arg_views(args@)[i])
                            > u64::MAX
                    ||| product_val(arg_views(args@)) > u64::MAX
                }
            },
        },
{
    if args.len() < 2 {
        return Err(CommandError::InvalidArgument);
    }
    let ghost tokens = arg_views(args@);
    let mut vals: Vec<u64> = Vec::new();
    let mut i: usize = 0;
    while i < args.len()
        invariant
            tokens == arg_views(args@),
            tokens.len() == args@.len(),
            args@.len() >= 2,
            0 <= i <= args@.len(),
            vals@.len() == i,
            forall|j: int| 0 <= j < i ==> valid_token(#[trigger] tokens[j]),
            forall|j: int| 0 <= j < i ==> vals@[j] == token_val(#[trigger] tokens[j]),
        decreases args@.len() - i,
    {
        match parse_token(args[i].as_str()) {
            Some(v) => {
                vals.push(v);
            },
            None => {
                proof {
                    if valid_token(tokens[i as int]) {
                        assert(token_val(arg_views(args@)[i as int]) > u64::MAX);
                    } else {
                        assert(!valid_multiply_args(arg_views(args@)));
                    }
                }
                return Err(CommandError::InvalidArgument);
            },
        }
        i = i + 1;
    }
    let mut k: usize = 0;
    while k < vals.len()
        invariant
            tokens == arg_views(args@),
            tokens.len() == args@.len(),
            args@.len() >= 2,
            vals@.len() == tokens.len(),
            0 <= k <= vals@.len(),
            forall|j: int| 0 <= j < tokens.len() ==> valid_token(#[trigger] tokens[j]),
            forall|j: int| 0 <= j < tokens.len() ==> vals@[j] == token_val(#[trigger] tokens[j]),
            forall|j: int| 0 <= j < k ==> vals@[j] >= 1,
        decreases vals@.len() - k,
    {
        if vals[k] == 0 {
            proof {
                lemma_product_with_zero(tokens, k as int);
                assert forall|j: int| 0 <= j < args@.len() implies token_val(
                    #[trigger] arg_views(args@)[j],
                ) <= u64::MAX by {
                    assert(vals@[j] == token_val(tokens[j]));
                }
            }
            return Ok(0);
        }
        k = k + 1;
    }
    let mut acc: u64 = 1;
    let mut m: usize = 0;
    while m < vals.len()
        invariant
            tokens == arg_views(args@),
            tokens.len() == args@.len(),
            args@.len() >= 2,
            vals@.len() == tokens.len(),
            0 <= m <= vals@.len(),
            forall|j: int| 0 <= j < tokens.len() ==> valid_token(#[trigger] tokens[j]),
            forall|j: int| 0 <= j < tokens.len() ==> vals@[j] == token_val(#[trigger] tokens[j]),
            forall|j: int| 0 <= j < tokens.len() ==> vals@[j] >= 1,
            acc == product_val(tokens.subrange(0, m as int)),
        decreases vals@.len() - m,
    {
        proof {
            assert(tokens.subrange(0, m + 1).drop_last() =~= tokens.subrange(0, m as int));
            assert(tokens.subrange(0, m + 1).last() == tokens[m as int]);
        }
        match acc.checked_mul(vals[m]) {
            Some(p) => {
                acc = p;
            },
            None => {
                proof {
                    lemma_product_prefix_bound(tokens, m + 1);
                    assert(product_val(tokens.subrange(0, m + 1)) == acc * vals@[m as int]);
                    assert(product_val(arg_views(args@)) > u64::MAX);
                }
                return Err(CommandError::InvalidArgument);
            },
        }
        m = m + 1;
    }
    proof {
        assert(tokens.subrange(0, tokens.len() as int) =~= tokens);
        assert forall|j: int| 0 <= j < args@.len() implies token_val(
            #[trigger] arg_views(args@)[j],
        ) <= u64::MAX by {
            assert(vals@[j] == token_val(tokens[j]));
        }
    }
    Ok(acc)
}

} // verus!
