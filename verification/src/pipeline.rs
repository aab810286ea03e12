//! The per-record cycle: one input line is either skipped (blank),
//! answered with one JSON response line, or fails fatally. The driving
//! loop around this function only reads lines, writes the responses, and
//! terminates the process on the first fatal error.

use vstd::prelude::*;
use vstd::string::StrSliceExecFns;
use crate::decode::{decode_line, json_string_members, json_wf, spec_decode_members};
use crate::encode::{encode_verdict, spec_encode_verdict};
use crate::evaluate::{evaluate, spec_evaluate};
use crate::model::{DecodeError, FatalError};

verus! {

/// The Unicode whitespace characters: the White_Space code points, the
/// set str::trim and char::is_whitespace go by.
pub open spec fn is_whitespace_char(c: char) -> bool {
    ||| 0x09 <= c as int <= 0x0D
    ||| c as int == 0x20
    ||| c as int == 0x85
    ||| c as int == 0xA0
    ||| c as int == 0x1680
    ||| 0x2000 <= c as int <= 0x200A
    ||| c as int == 0x2028
    ||| c as int == 0x2029
    ||| c as int == 0x202F
    ||| c as int == 0x205F
    ||| c as int == 0x3000
}

/// A line is blank when every character of it is whitespace (an empty
/// line included).
pub open spec fn is_blank(s: Seq<char>) -> bool {
    forall|i: int| 0 <= i < s.len() ==> is_whitespace_char(#[trigger] s[i])
}

/// Decide whether a line is whitespace-only.
fn line_is_blank(s: &str) -> (r: bool)
    ensures
        r == is_blank(s@),
{
    let n: usize = s.unicode_len();
    let mut i: usize = 0;
    while i < n
        invariant
            i <= n,
            n as int == s@.len(),
            forall|j: int| 0 <= j < i ==> is_whitespace_char(#[trigger] s@[j]),
        decreases n - i,
    {
        let c = s.get_char(i);
        let u = c as u32;
        let ws = (0x09 <= u && u <= 0x0D) || u == 0x20 || u == 0x85 || u == 0xA0 || u == 0x1680
            || (0x2000 <= u && u <= 0x200A) || u == 0x2028 || u == 0x2029 || u == 0x202F
            || u == 0x205F || u == 0x3000;
        if !ws {
            proof {
                assert(!is_whitespace_char(s@[i as int]));
            }
            return false;
        }
        i = i + 1;
    }
    true
}

/// The outcome owed for the string members of one record object:
/// decode, evaluate, encode, in that order; the first failure is fatal.
pub open spec fn spec_respond(m: Map<Seq<char>, Seq<char>>) -> Result<Seq<char>, FatalError> {
    match spec_decode_members(m) {
        Err(e) => Err(FatalError::Decode(e)),
        Ok(req) => match spec_evaluate(req) {
            Err(_) => Err(FatalError::Overflow),
            Ok(v) => Ok(spec_encode_verdict(v)),
        },
    }
}

/// Process one input line: a whitespace-only line is skipped with no
/// output; any other line is decoded, evaluated and encoded into one
/// response line. Every error is fatal to the caller's loop.
pub fn process_line(line: &str) -> (r: Result<Option<String>, FatalError>)
    ensures
        is_blank(line@) ==> r matches Ok(None),
        !is_blank(line@) && json_wf(line@) ==> (match spec_respond(json_string_members(line@)) {
            Ok(text) => r matches Ok(Some(out)) && out@ == text,
            Err(e) => r == Err::<Option<String>, FatalError>(e),
        }),
        !is_blank(line@) && !json_wf(line@) ==> r matches Err(
            FatalError::Decode(DecodeError::Syntax(_)),
        ),
        match r {
            Ok(out) => match out {
                None => is_blank(line@),
                Some(text) => !is_blank(line@) && spec_respond(json_string_members(line@)) == Ok::<
                    Seq<char>,
                    FatalError,
                >(text@),
            },
            Err(e) => !is_blank(line@) && ((e matches FatalError::Decode(DecodeError::Syntax(_)))
                || spec_respond(json_string_members(line@)) == Err::<Seq<char>, FatalError>(e)),
        },
{
    if line_is_blank(line) {
        return Ok(None);
    }
    let req = match decode_line(line) {
        Ok(req) => req,
        Err(e) => {
            return Err(FatalError::Decode(e));
        },
    };
    let verdict = match evaluate(&req) {
        Ok(v) => v,
        Err(_) => {
            return Err(FatalError::Overflow);
        },
    };
    Ok(Some(encode_verdict(&verdict)))
}

/// Law: processing is deterministic; the same record yields bit-identical
/// outcomes however often it is evaluated.
pub proof fn lemma_respond_deterministic(
    m: Map<Seq<char>, Seq<char>>,
    r1: Result<Seq<char>, FatalError>,
    r2: Result<Seq<char>, FatalError>,
)
    requires
        r1 == spec_respond(m),
        r2 == spec_respond(m),
    ensures
        r1 == r2,
{
}

} // verus!
