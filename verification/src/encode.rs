//! The encoder: one verdict becomes one single-line JSON object with
//! exactly the fields `profitable`, `profit` and `conservativeProfit`,
//! the two profit figures as decimal text of full precision.

use vstd::prelude::*;
use vstd::string::StringExecFns;
use crate::intstr::{all_digits, dec_digits, dec_text, lemma_dec_digits_canonical};
use crate::model::Verdict;

verus! {

/// JSON spelling of a boolean.
pub open spec fn bool_text(b: bool) -> Seq<char> {
    if b {
        "true"@
    } else {
        "false"@
    }
}

/// The full text of the JSON line for a verdict.
pub open spec fn spec_encode_verdict(v: Verdict) -> Seq<char> {
    "{\"profitable\":"@ + bool_text(v.profitable) + ",\"profit\":\""@ + dec_text(v.profit as int)
        + "\",\"conservativeProfit\":\""@ + dec_text(v.conservative_profit as int) + "\"}"@
}

/// Serialize a verdict as one JSON response line.
pub fn encode_verdict(v: &Verdict) -> (r: String)
    ensures
        r@ == spec_encode_verdict(*v),
{
    let mut s = String::from_str("{\"profitable\":");
    s.append(if v.profitable {
        "true"
    } else {
        "false"
    });
    s.append(",\"profit\":\"");
    let p = crate::intstr::i128_to_dec(v.profit);
    s.append(p.as_str());
    s.append("\",\"conservativeProfit\":\"");
    let c = crate::intstr::i128_to_dec(v.conservative_profit);
    s.append(c.as_str());
    s.append("\"}");
    proof {
        assert(s@ =~= spec_encode_verdict(*v));
    }
    s
}

/// Law: every encoded response embeds both profit figures as canonical
/// decimal text: at least one character, decimal digits after an optional
/// leading `-` (present exactly for negative values), and no leading zero
/// other than a lone `0`. Together with the fixed shape stated by
/// `spec_encode_verdict`, the response is one JSON object holding exactly
/// the fields `profitable`, `profit` and `conservativeProfit`.
pub proof fn lemma_encode_canonical(v: Verdict)
    ensures
        dec_text_canonical(v.profit as int),
        dec_text_canonical(v.conservative_profit as int),
{
    lemma_dec_text_canonical(v.profit as int);
    lemma_dec_text_canonical(v.conservative_profit as int);
}

/// The decimal text of a value is canonical: nonempty, a `-` first
/// exactly when the value is negative, decimal digits everywhere else,
/// and no leading zero unless the value is zero.
pub open spec fn dec_text_canonical(v: int) -> bool {
    &&& dec_text(v).len() >= 1
    &&& (v >= 0 ==> all_digits(dec_text(v)) && dec_text(v)[0] != '-')
    &&& (v < 0 ==> dec_text(v)[0] == '-' && all_digits(dec_text(v).skip(1)) && dec_text(
        v,
    ).skip(1).len() >= 1)
    &&& (v == 0 ==> dec_text(v) == seq!['0'])
    &&& (v > 0 ==> dec_text(v)[0] != '0')
    &&& (v < 0 ==> dec_text(v)[1] != '0')
}

pub proof fn lemma_dec_text_canonical(v: int)
    ensures
        dec_text_canonical(v),
{
    if v >= 0 {
        lemma_dec_digits_canonical(v as nat);
        assert(crate::intstr::is_digit(dec_text(v)[0]));
    } else {
        lemma_dec_digits_canonical((-v) as nat);
        assert(dec_text(v).skip(1) =~= dec_digits((-v) as nat));
        assert(dec_text(v)[1] == dec_digits((-v) as nat)[0]);
    }
}

} // verus!
