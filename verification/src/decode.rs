//! The decoder: one line of text becomes a `ScenarioRequest`.
//!
//! The JSON text is parsed by serde_json behind trusted wrappers; the
//! shape checks — all seven numeric fields present (the fee under either
//! of its two accepted spellings) and each one a signed decimal integer
//! within the supported range — are verified code.

use vstd::prelude::*;
use crate::intstr::spec_parse_i128;
use crate::model::{DecodeError, Field, ScenarioRequest};

verus! {

/// Declares serde_json::Value so that it can stand in signatures; the
/// verifier sees nothing inside a value of it.
#[verifier::external_type_specification]
#[verifier::external_body]
pub struct ExJsonValue(serde_json::Value);

/// Declares serde_json::Error; carried only to extract a diagnostic.
#[verifier::external_type_specification]
#[verifier::external_body]
pub struct ExJsonError(serde_json::Error);

/// The string-typed members of the top-level JSON object encoded by a
/// line of text: each member whose value is a JSON string, keyed by the
/// member name, with the string's character content.
pub uninterp spec fn json_string_members(s: Seq<char>) -> Map<Seq<char>, Seq<char>>;

/// The string-typed members held by a decoded `serde_json::Value`.
pub uninterp spec fn value_string_members(v: serde_json::Value) -> Map<Seq<char>, Seq<char>>;

/// The character content of a `serde_json::Value` that is a JSON string.
pub uninterp spec fn value_str(v: serde_json::Value) -> Option<Seq<char>>;

/// Whether serde_json::from_str accepts a line of text; a function of
/// the text alone.
pub uninterp spec fn json_wf(s: Seq<char>) -> bool;

/// Relies on serde_json::from_str::<Value>: the parse is a function of
/// the input text alone; it succeeds or fails depending only on the
/// text, and on success the string-typed members of the decoded value
/// are those of the text.
#[verifier::external_body]
fn parse_json_value(s: &str) -> (r: Result<serde_json::Value, serde_json::Error>)
    ensures
        (r is Ok) == json_wf(s@),
        match r {
            Ok(v) => value_string_members(v) == json_string_members(s@),
            Err(_) => true,
        },
{
    serde_json::from_str(s)
}

/// Relies on serde_json::Value::get with a string index: a member lookup.
/// A member recorded among the string members is found and carries that
/// content; under a key not recorded there, whatever is found is not a
/// string.
#[verifier::external_body]
fn value_get<'a>(v: &'a serde_json::Value, key: &str) -> (r: Option<&'a serde_json::Value>)
    ensures
        match r {
            Some(x) => if value_string_members(*v).contains_key(key@) {
                value_str(*x) == Some(value_string_members(*v)[key@])
            } else {
                value_str(*x) is None
            },
            None => !value_string_members(*v).contains_key(key@),
        },
{
    v.get(key)
}

/// Relies on serde_json::Value::as_str: `Some` with the character
/// content exactly when the value is a JSON string.
#[verifier::external_body]
fn value_as_string(v: &serde_json::Value) -> (r: Option<String>)
    ensures
        match r {
            Some(s) => value_str(*v) == Some(s@),
            None => value_str(*v) is None,
        },
{
    match v.as_str() {
        Some(s) => Some(s.to_string()),
        None => None,
    }
}

/// Relies on serde_json::Error's Display implementation for a
/// human-readable parse diagnostic; nothing is assumed of the text.
#[verifier::external_body]
fn json_error_message(e: &serde_json::Error) -> (r: String) {
    e.to_string()
}

/// The string-typed member of `v` under `key`, if any.
fn member_string(v: &serde_json::Value, key: &str) -> (r: Option<String>)
    ensures
        match r {
            Some(s) => value_string_members(*v).contains_key(key@) && s@ == value_string_members(
                *v,
            )[key@],
            None => !value_string_members(*v).contains_key(key@),
        },
{
    match value_get(v, key) {
        Some(x) => value_as_string(x),
        None => None,
    }
}

/// The legacy spelling of the fee field, accepted for backward
/// compatibility.
pub open spec fn fee_alias_key() -> Seq<char> {
    "feeEstimateLamports"@
}

/// The raw text of the member under `key`, if present.
pub open spec fn spec_raw_member(m: Map<Seq<char>, Seq<char>>, key: Seq<char>) -> Option<
    Seq<char>,
> {
    if m.contains_key(key) {
        Some(m[key])
    } else {
        None
    }
}

/// The fee member resolved from its two accepted spellings: the
/// canonical name wins; the legacy name is used in its absence.
pub open spec fn spec_fee_member(m: Map<Seq<char>, Seq<char>>) -> Option<Seq<char>> {
    if m.contains_key(Field::FeeEstimate.spec_name()) {
        Some(m[Field::FeeEstimate.spec_name()])
    } else if m.contains_key(fee_alias_key()) {
        Some(m[fee_alias_key()])
    } else {
        None
    }
}

/// Decode of one numeric field from its raw member text: absent is a
/// missing field; text that is not an in-range signed decimal integer is
/// an invalid integer.
pub open spec fn spec_field_value(raw: Option<Seq<char>>, f: Field) -> Result<i128, DecodeError> {
    match raw {
        None => Err(DecodeError::MissingField(f)),
        Some(t) => match spec_parse_i128(t) {
            Some(v) => Ok(v),
            None => Err(DecodeError::InvalidInt(f)),
        },
    }
}

/// The decode owed for the string members of a record object: every
/// numeric field present (the fee under either spelling) and an in-range
/// signed decimal integer. Fields are checked in a fixed order and the
/// first failure is reported.
pub open spec fn spec_decode_members(m: Map<Seq<char>, Seq<char>>) -> Result<
    ScenarioRequest,
    DecodeError,
> {
    match spec_field_value(spec_raw_member(m, Field::AmountIn.spec_name()), Field::AmountIn) {
        Err(e) => Err(e),
        Ok(amount_in) => match spec_field_value(
            spec_raw_member(m, Field::Quote1Out.spec_name()),
            Field::Quote1Out,
        ) {
            Err(e) => Err(e),
            Ok(quote1_out) => match spec_field_value(
                spec_raw_member(m, Field::Quote1MinOut.spec_name()),
                Field::Quote1MinOut,
            ) {
                Err(e) => Err(e),
                Ok(quote1_min_out) => match spec_field_value(
                    spec_raw_member(m, Field::Quote2Out.spec_name()),
                    Field::Quote2Out,
                ) {
                    Err(e) => Err(e),
                    Ok(quote2_out) => match spec_field_value(
                        spec_raw_member(m, Field::Quote2MinOut.spec_name()),
                        Field::Quote2MinOut,
                    ) {
                        Err(e) => Err(e),
                        Ok(quote2_min_out) => match spec_field_value(
                            spec_raw_member(m, Field::MinProfit.spec_name()),
                            Field::MinProfit,
                        ) {
                            Err(e) => Err(e),
                            Ok(min_profit) => match spec_field_value(
                                spec_fee_member(m),
                                Field::FeeEstimate,
                            ) {
                                Err(e) => Err(e),
                                Ok(fee_estimate_in_input_units) => Ok(
                                    ScenarioRequest {
                                        amount_in,
                                        quote1_out,
                                        quote1_min_out,
                                        quote2_out,
                                        quote2_min_out,
                                        min_profit,
                                        fee_estimate_in_input_units,
                                    },
                                ),
                            },
                        },
                    },
                },
            },
        },
    }
}

/// The eight member names differ pairwise wherever the decode depends on
/// it: both fee spellings differ from each other and from every other
/// field name.
proof fn lemma_keys_distinct()
    ensures
        Field::FeeEstimate.spec_name() != fee_alias_key(),
        Field::AmountIn.spec_name() != Field::FeeEstimate.spec_name(),
        Field::AmountIn.spec_name() != fee_alias_key(),
        Field::Quote1Out.spec_name() != Field::FeeEstimate.spec_name(),
        Field::Quote1Out.spec_name() != fee_alias_key(),
        Field::Quote1MinOut.spec_name() != Field::FeeEstimate.spec_name(),
        Field::Quote1MinOut.spec_name() != fee_alias_key(),
        Field::Quote2Out.spec_name() != Field::FeeEstimate.spec_name(),
        Field::Quote2Out.spec_name() != fee_alias_key(),
        Field::Quote2MinOut.spec_name() != Field::FeeEstimate.spec_name(),
        Field::Quote2MinOut.spec_name() != fee_alias_key(),
        Field::MinProfit.spec_name() != Field::FeeEstimate.spec_name(),
        Field::MinProfit.spec_name() != fee_alias_key(),
{
    reveal_strlit("amountIn");
    reveal_strlit("quote1Out");
    reveal_strlit("quote1MinOut");
    reveal_strlit("quote2Out");
    reveal_strlit("quote2MinOut");
    reveal_strlit("minProfit");
    reveal_strlit("feeEstimateInInputUnits");
    reveal_strlit("feeEstimateLamports");
    assert(Field::FeeEstimate.spec_name().len() == 23);
    assert(fee_alias_key().len() == 19);
    assert(Field::AmountIn.spec_name().len() == 8);
    assert(Field::Quote1Out.spec_name().len() == 9);
    assert(Field::Quote1MinOut.spec_name().len() == 12);
    assert(Field::Quote2Out.spec_name().len() == 9);
    assert(Field::Quote2MinOut.spec_name().len() == 12);
    assert(Field::MinProfit.spec_name().len() == 9);
}

/// Law: the two accepted spellings of the fee field decode to the same
/// request; a record that names the fee under the canonical spelling and
/// one that names it under the legacy spelling, with the same text and
/// the same remaining members, decode identically.
pub proof fn lemma_fee_alias_equivalent(m: Map<Seq<char>, Seq<char>>, t: Seq<char>)
    requires
        !m.contains_key(Field::FeeEstimate.spec_name()),
        !m.contains_key(fee_alias_key()),
    ensures
        spec_decode_members(m.insert(Field::FeeEstimate.spec_name(), t)) == spec_decode_members(
            m.insert(fee_alias_key(), t),
        ),
{
    lemma_keys_distinct();
    let m1 = m.insert(Field::FeeEstimate.spec_name(), t);
    let m2 = m.insert(fee_alias_key(), t);
    assert(spec_fee_member(m1) == Some(t));
    assert(spec_fee_member(m2) == Some(t));
    assert(spec_raw_member(m1, Field::AmountIn.spec_name()) == spec_raw_member(
        m2,
        Field::AmountIn.spec_name(),
    ));
    assert(spec_raw_member(m1, Field::Quote1Out.spec_name()) == spec_raw_member(
        m2,
        Field::Quote1Out.spec_name(),
    ));
    assert(spec_raw_member(m1, Field::Quote1MinOut.spec_name()) == spec_raw_member(
        m2,
        Field::Quote1MinOut.spec_name(),
    ));
    assert(spec_raw_member(m1, Field::Quote2Out.spec_name()) == spec_raw_member(
        m2,
        Field::Quote2Out.spec_name(),
    ));
    assert(spec_raw_member(m1, Field::Quote2MinOut.spec_name()) == spec_raw_member(
        m2,
        Field::Quote2MinOut.spec_name(),
    ));
    assert(spec_raw_member(m1, Field::MinProfit.spec_name()) == spec_raw_member(
        m2,
        Field::MinProfit.spec_name(),
    ));
}

/// Law: a record that names the fee under neither accepted spelling
/// fails to decode.
pub proof fn lemma_fee_required(m: Map<Seq<char>, Seq<char>>)
    requires
        !m.contains_key(Field::FeeEstimate.spec_name()),
        !m.contains_key(fee_alias_key()),
    ensures
        spec_decode_members(m) is Err,
{
    assert(spec_fee_member(m) is None);
}

/// Decode one numeric field from its raw member text.
fn field_value(raw: Option<String>, f: Field) -> (r: Result<i128, DecodeError>)
    ensures
        r == spec_field_value(
            match raw {
                Some(s) => Some(s@),
                None => None,
            },
            f,
        ),
{
    match raw {
        None => Err(DecodeError::MissingField(f)),
        Some(t) => match crate::intstr::parse_i128(t.as_str()) {
            Some(v) => Ok(v),
            None => Err(DecodeError::InvalidInt(f)),
        },
    }
}

/// The raw fee member of `v`, under whichever accepted spelling is
/// present.
fn fee_member(v: &serde_json::Value) -> (r: Option<String>)
    ensures
        match r {
            Some(s) => spec_fee_member(value_string_members(*v)) == Some(s@),
            None => spec_fee_member(value_string_members(*v)) is None,
        },
{
    match member_string(v, "feeEstimateInInputUnits") {
        Some(s) => Some(s),
        None => member_string(v, "feeEstimateLamports"),
    }
}

/// Decode a parsed record object into a scenario request.
pub fn decode_value(v: &serde_json::Value) -> (r: Result<ScenarioRequest, DecodeError>)
    ensures
        r == spec_decode_members(value_string_members(*v)),
{
    let amount_in = match field_value(member_string(v, "amountIn"), Field::AmountIn) {
        Ok(x) => x,
        Err(e) => {
            return Err(e);
        },
    };
    let quote1_out = match field_value(member_string(v, "quote1Out"), Field::Quote1Out) {
        Ok(x) => x,
        Err(e) => {
            return Err(e);
        },
    };
    let quote1_min_out = match field_value(member_string(v, "quote1MinOut"), Field::Quote1MinOut) {
        Ok(x) => x,
        Err(e) => {
            return Err(e);
        },
    };
    let quote2_out = match field_value(member_string(v, "quote2Out"), Field::Quote2Out) {
        Ok(x) => x,
        Err(e) => {
            return Err(e);
        },
    };
    let quote2_min_out = match field_value(member_string(v, "quote2MinOut"), Field::Quote2MinOut) {
        Ok(x) => x,
        Err(e) => {
            return Err(e);
        },
    };
    let min_profit = match field_value(member_string(v, "minProfit"), Field::MinProfit) {
        Ok(x) => x,
        Err(e) => {
            return Err(e);
        },
    };
    let fee_estimate_in_input_units = match field_value(fee_member(v), Field::FeeEstimate) {
        Ok(x) => x,
        Err(e) => {
            return Err(e);
        },
    };
    Ok(
        ScenarioRequest {
            amount_in,
            quote1_out,
            quote1_min_out,
            quote2_out,
            quote2_min_out,
            min_profit,
            fee_estimate_in_input_units,
        },
    )
}

/// Decode one line of text into a scenario request. A line the JSON
/// parser rejects is reported as a syntax failure with the parser's
/// diagnostic; an accepted line is decoded exactly as
/// `spec_decode_members` states.
pub fn decode_line(line: &str) -> (r: Result<ScenarioRequest, DecodeError>)
    ensures
        json_wf(line@) ==> r == spec_decode_members(json_string_members(line@)),
        !json_wf(line@) ==> r matches Err(DecodeError::Syntax(_)),
{
    match parse_json_value(line) {
        Ok(v) => decode_value(&v),
        Err(e) => Err(DecodeError::Syntax(json_error_message(&e))),
    }
}

} // verus!
