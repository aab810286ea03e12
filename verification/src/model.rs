//! Data model: the decoded trade scenario, the verdict, and the error
//! taxonomy of the record pipeline.

use vstd::prelude::*;
use vstd::string::StringExecFns;

verus! {

/// One decoded trade scenario. Every field is an exact integer in base
/// units; `quote1_out` and `quote1_min_out` are validated at decode time
/// but do not enter the profit formulas.
#[derive(Clone, Copy, Debug, PartialEq, Eq, Structural)]
pub struct ScenarioRequest {
    pub amount_in: i128,
    pub quote1_out: i128,
    pub quote1_min_out: i128,
    pub quote2_out: i128,
    pub quote2_min_out: i128,
    pub min_profit: i128,
    pub fee_estimate_in_input_units: i128,
}

/// The evaluator's answer for one scenario.
#[derive(Clone, Copy, Debug, PartialEq, Eq, Structural)]
pub struct Verdict {
    pub profitable: bool,
    pub profit: i128,
    pub conservative_profit: i128,
}

/// An arithmetic step left the supported signed 128-bit range.
#[derive(Clone, Copy, Debug, PartialEq, Eq, Structural)]
pub struct OverflowError;

/// The seven numeric fields of a request record.
#[derive(Clone, Copy, Debug, PartialEq, Eq, Structural)]
pub enum Field {
    AmountIn,
    Quote1Out,
    Quote1MinOut,
    Quote2Out,
    Quote2MinOut,
    MinProfit,
    FeeEstimate,
}

/// Why a record failed to decode: the line is not well-formed JSON (with
/// the parser's diagnostic), a required field is absent, or a field is
/// not a signed decimal integer within the supported range.
#[derive(Debug)]
pub enum DecodeError {
    Syntax(String),
    MissingField(Field),
    InvalidInt(Field),
}

/// A fatal condition of the record pipeline; the driving loop is expected
/// to report it and terminate the whole process.
#[derive(Debug)]
pub enum FatalError {
    Decode(DecodeError),
    Overflow,
}

impl Field {
    /// The field's name as it appears in a request record (the fee field
    /// under its canonical spelling).
    pub fn name(&self) -> (r: &'static str)
        ensures
            r@ == self.spec_name(),
    {
        match self {
            Field::AmountIn => "amountIn",
            Field::Quote1Out => "quote1Out",
            Field::Quote1MinOut => "quote1MinOut",
            Field::Quote2Out => "quote2Out",
            Field::Quote2MinOut => "quote2MinOut",
            Field::MinProfit => "minProfit",
            Field::FeeEstimate => "feeEstimateInInputUnits",
        }
    }

    /// Canonical name of each field.
    pub open spec fn spec_name(self) -> Seq<char> {
        match self {
            Field::AmountIn => "amountIn"@,
            Field::Quote1Out => "quote1Out"@,
            Field::Quote1MinOut => "quote1MinOut"@,
            Field::Quote2Out => "quote2Out"@,
            Field::Quote2MinOut => "quote2MinOut"@,
            Field::MinProfit => "minProfit"@,
            Field::FeeEstimate => "feeEstimateInInputUnits"@,
        }
    }
}

impl DecodeError {
    /// Human-readable diagnostic for the error channel.
    pub fn message(&self) -> String {
        match self {
            DecodeError::Syntax(s) => {
                let mut m = String::from_str("invalid record: ");
                m.append(s.as_str());
                m
            },
            DecodeError::MissingField(f) => {
                let mut m = String::from_str("missing field: ");
                m.append(f.name());
                m
            },
            DecodeError::InvalidInt(f) => {
                let mut m = String::from_str("invalid int in field: ");
                m.append(f.name());
                m
            },
        }
    }
}

impl FatalError {
    /// Human-readable diagnostic for the error channel.
    pub fn message(&self) -> String {
        match self {
            FatalError::Decode(e) => e.message(),
            FatalError::Overflow => String::from_str("arithmetic overflow beyond the 128-bit range"),
        }
    }
}

} // verus!
