//! The boundary detector: classify one line of the stream and extract the
//! target name a boundary marker carries.
//!
//! The two scanning primitives are regular-expression calls; everything that
//! builds on them is verified against the model.

use vstd::prelude::*;
use vstd::string::*;

use regex::Regex;

use crate::SplitError;
use crate::model::{flat_name, is_marker_line, last_token, target_of};

verus! {

/// Relies on `Regex::is_match` with the pattern `^diff `: anchored at the
/// start of the haystack, it matches exactly the lines that begin with the
/// five characters `diff `.  The pattern is a valid literal, so
/// `Regex::new` cannot fail on it.
#[verifier::external_body]
pub(crate) fn line_is_marker(line: &str) -> (r: bool)
    ensures
        r == is_marker_line(line@),
{
    Regex::new(r"^diff ").unwrap().is_match(line)
}

/// Relies on `Regex::captures` with the pattern `(\S+)\s*$`: its leftmost
/// match binds group 1 to the last whitespace-delimited token of the
/// haystack, the maximal run of non-whitespace characters followed only by
/// whitespace; there is no match exactly when the haystack holds no
/// non-whitespace character.  `\s` is the Unicode White_Space set, mirrored
/// by `model::is_wspace`.  The pattern is a valid literal, so `Regex::new`
/// cannot fail on it.
#[verifier::external_body]
pub(crate) fn last_nonspace_token(line: &str) -> (r: Option<String>)
    ensures
        r is Some <==> last_token(line@) is Some,
        r matches Option::Some(t) ==> last_token(line@) == Option::Some(t@),
{
    match Regex::new(r"(\S+)\s*$").unwrap().captures(line) {
        Option::Some(caps) => Option::Some(caps.get(1).unwrap().as_str().to_string()),
        Option::None => Option::None,
    }
}

/// The target name a marker line carries: its last whitespace-delimited
/// token with the first two characters (a diff-tool path prefix such as
/// `b/`) dropped.  The error says the line carries no usable target.
pub fn target_name(line: &str) -> (r: Result<String, SplitError>)
    ensures
        r is Ok <==> target_of(line@) is Some,
        r matches Result::Ok(t) ==> target_of(line@) == Option::Some(t@),
        r is Err ==> r == Result::<String, SplitError>::Err(SplitError::MalformedPatch),
{
    match last_nonspace_token(line) {
        Option::None => Result::Err(SplitError::MalformedPatch),
        Option::Some(tok) => {
            let n = tok.as_str().unicode_len();
            if n < 2 {
                Result::Err(SplitError::MalformedPatch)
            } else {
                Result::Ok(String::from_str(tok.as_str().substring_char(2, n)))
            }
        },
    }
}

/// The artifact file name of a target: every path separator flattened to an
/// underscore.
pub fn flatten_name(target: &str) -> (r: String)
    ensures
        r@ == flat_name(target@),
{
    let n = target.unicode_len();
    let mut r = String::new();
    let mut i: usize = 0;
    while i < n
        invariant
            n == target@.len(),
            i <= n,
            r@ == flat_name(target@.take(i as int)),
        decreases n - i,
    {
        let c = target.get_char(i);
        if c == '/' {
            r.append("_");
        } else {
            r.append(target.substring_char(i, i + 1));
        }
        proof {
            reveal_strlit("_");
            assert(flat_name(target@.take(i + 1)) =~= flat_name(target@.take(i as int)) + seq![
                if target@[i as int] == '/' {
                    '_'
                } else {
                    target@[i as int]
                },
            ]);
            assert(target@.subrange(i as int, i + 1) =~= seq![target@[i as int]]);
        }
        i = i + 1;
    }
    proof {
        assert(target@.take(n as int) =~= target@);
    }
    r
}

/// The artifact's full path: the output directory, a path separator, and
/// the flattened target name.
pub fn artifact_path(out_dir: &str, target: &str) -> (r: String)
    ensures
        r@ == out_dir@ + seq!['/'] + flat_name(target@),
{
    let mut r = String::from_str(out_dir);
    r.append("/");
    let flat = flatten_name(target);
    r.append(flat.as_str());
    proof {
        reveal_strlit("/");
        assert(r@ =~= out_dir@ + seq!['/'] + flat_name(target@));
    }
    r
}

} // verus!
