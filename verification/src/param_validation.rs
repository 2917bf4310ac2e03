//! Validation of path parameters: a parameter must be a decimal unsigned
//! integer that fits in 32 bits, optionally preceded by one `+` sign, as
//! `u32` parsing accepts it. Anything else is rejected with a message that
//! names the parameter.

use vstd::prelude::*;

verus! {

/// Whether `c` is a decimal digit.
pub open spec fn is_decimal_digit(c: char) -> bool {
    48 <= c as u32 <= 57
}

/// Numeric value of a decimal digit.
pub open spec fn digit_value(c: char) -> int {
    c as u32 - 48
}

/// Whether every character of `s` is a decimal digit.
pub open spec fn all_decimal_digits(s: Seq<char>) -> bool {
    forall|j: int| 0 <= j < s.len() ==> is_decimal_digit(#[trigger] s[j])
}

/// Value of a sequence of decimal digits, most significant first.
pub open spec fn decimal_value(s: Seq<char>) -> int
    decreases s.len(),
{
    if s.len() == 0 {
        0
    } else {
        10 * decimal_value(s.drop_last()) + digit_value(s.last())
    }
}

/// The parameter with one leading `+` sign stripped, if it has one.
pub open spec fn unsigned_body(s: Seq<char>) -> Seq<char> {
    if s.len() > 0 && s[0] == '+' {
        s.subrange(1, s.len() as int)
    } else {
        s
    }
}

/// Whether `s` is a valid `u32` numeral: after stripping one optional `+`
/// sign, at least one character, all of them decimal digits, with a value
/// that fits in 32 bits.
pub open spec fn parses_as_u32(s: Seq<char>) -> bool {
    let body = unsigned_body(s);
    &&& body.len() > 0
    &&& all_decimal_digits(body)
    &&& decimal_value(body) <= u32::MAX
}

/// The message a rejected parameter produces.
pub open spec fn invalid_param_text(param_name: Seq<char>) -> Seq<char> {
    "Invalid "@ + param_name + ". Must be a valid positive integer."@
}

/// A digit sequence has a nonnegative value.
proof fn lemma_decimal_value_nonneg(s: Seq<char>)
    requires
        all_decimal_digits(s),
    ensures
        decimal_value(s) >= 0,
    decreases s.len(),
{
    if s.len() > 0 {
        let head = s.drop_last();
        assert(all_decimal_digits(head)) by {
            assert(forall|j: int| 0 <= j < head.len() ==> head[j] == #[trigger] s[j]);
        }
        lemma_decimal_value_nonneg(head);
    }
}

/// Extending a digit sequence never lowers its value.
proof fn lemma_decimal_value_prefix(s: Seq<char>, k: int)
    requires
        all_decimal_digits(s),
        0 <= k <= s.len(),
    ensures
        decimal_value(s) >= decimal_value(s.take(k)),
    decreases s.len() - k,
{
    if k == s.len() {
        assert(s.take(k) =~= s);
    } else {
        lemma_decimal_value_prefix(s, k + 1);
        let t = s.take(k + 1);
        assert(t.drop_last() =~= s.take(k));
        assert(t.last() == s[k]);
        assert(all_decimal_digits(s.take(k))) by {
            assert(forall|j: int| 0 <= j < k ==> s.take(k)[j] == #[trigger] s[j]);
        }
        lemma_decimal_value_nonneg(s.take(k));
    }
}

/// Relies on `format!` of std: the message is exactly the three parts
/// concatenated around the parameter name.
#[verifier::external_body]
fn invalid_param_message(param_name: &str) -> (r: String)
    ensures
        r@ == invalid_param_text(param_name@),
{
    format!("Invalid {}. Must be a valid positive integer.", param_name)
}

/// Validates that `param` is a valid positive integer, returning its value,
/// or an error message that names `param_name`.
pub fn parse_path_param(param: &str, param_name: &str) -> (r: Result<u32, String>)
    ensures
        r is Ok <==> parses_as_u32(param@),
        r matches Ok(n) ==> n == decimal_value(unsigned_body(param@)),
        r matches Err(m) ==> m@ == invalid_param_text(param_name@),
{
    let len = param.unicode_len();
    let start: usize = if len > 0 && param.get_char(0) == '+' {
        1
    } else {
        0
    };
    let ghost body = unsigned_body(param@);
    proof {
        assert(body =~= param@.subrange(start as int, len as int));
    }
    if start >= len {
        return Err(invalid_param_message(param_name));
    }
    let mut acc: u64 = 0;
    let mut k: usize = start;
    while k < len
        invariant
            start < len == param@.len(),
            start <= k <= len,
            body == unsigned_body(param@),
            body == param@.subrange(start as int, len as int),
            forall|j: int| start <= j < k ==> is_decimal_digit(#[trigger] param@[j]),
            acc == decimal_value(param@.subrange(start as int, k as int)),
            acc <= u32::MAX,
        decreases len - k,
    {
        let c = param.get_char(k);
        let cv = c as u32;
        if cv < 48 || cv > 57 {
            proof {
                assert(!is_decimal_digit(body[k - start]));
            }
            return Err(invalid_param_message(param_name));
        }
        acc = acc * 10 + ((cv - 48) as u64);
        proof {
            let t = param@.subrange(start as int, k as int + 1);
            assert(t.drop_last() =~= param@.subrange(start as int, k as int));
            assert(t.last() == param@[k as int]);
        }
        if acc > (u32::MAX as u64) {
            proof {
                if all_decimal_digits(body) {
                    assert(body.take(k + 1 - start) =~= param@.subrange(
                        start as int,
                        k as int + 1,
                    ));
                    lemma_decimal_value_prefix(body, k + 1 - start);
                }
            }
            return Err(invalid_param_message(param_name));
        }
        k += 1;
    }
    proof {
        assert(forall|j: int|
            0 <= j < body.len() ==> body[j] == #[trigger] param@[j + start as int]);
    }
    Ok(acc as u32)
}

} // verus!
