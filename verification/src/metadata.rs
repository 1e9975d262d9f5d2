//! Validating an optional user-supplied metadata string as JSON, with a
//! hint for the common mistake of leaving a bare string unquoted.

use vstd::prelude::*;
use crate::errors::{hint_message, PutError};
use crate::outside::{json_from_str, json_parse_err};

verus! {

/// A quote character a user may have put around a bare string.
pub open spec fn is_quote(c: char) -> bool {
    c == '\'' || c == '"'
}

/// A character with structural meaning in JSON text; a bare string that
/// was merely left unquoted contains none of these in its interior.
pub open spec fn is_structural(c: char) -> bool {
    c == '{' || c == '}' || c == '[' || c == ']' || is_quote(c)
}

/// The input with at most one leading and one trailing quote character
/// removed.
pub open spec fn stripped(s: Seq<char>) -> Seq<char> {
    let t = if s.len() > 0 && is_quote(s[0]) {
        s.drop_first()
    } else {
        s
    };
    if t.len() > 0 && is_quote(t.last()) {
        t.drop_last()
    } else {
        t
    }
}

/// Whether the input looks like a bare string the user forgot to
/// JSON-quote: after stripping at most one leading and one trailing
/// quote, no structural character remains in the interior.
pub open spec fn looks_unquoted(s: Seq<char>) -> bool {
    forall|i: int| 0 <= i < stripped(s).len() ==> !is_structural(stripped(s)[i])
}

fn is_quote_exec(c: char) -> (r: bool)
    ensures
        r == is_quote(c),
{
    c == '\'' || c == '"'
}

fn is_structural_exec(c: char) -> (r: bool)
    ensures
        r == is_structural(c),
{
    c == '{' || c == '}' || c == '[' || c == ']' || is_quote_exec(c)
}

/// Decides `looks_unquoted` on the original, unmodified input string.
pub fn looks_unquoted_exec(s: &str) -> (r: bool)
    ensures
        r == looks_unquoted(s@),
{
    let len = s.unicode_len();
    let start: usize = if len > 0 && is_quote_exec(s.get_char(0)) {
        1
    } else {
        0
    };
    let end: usize = if len > start && is_quote_exec(s.get_char(len - 1)) {
        len - 1
    } else {
        len
    };
    proof {
        assert(stripped(s@) =~= s@.subrange(start as int, end as int));
    }
    let mut i: usize = start;
    while i < end
        invariant
            start <= i <= end <= len,
            len == s@.len(),
            stripped(s@) == s@.subrange(start as int, end as int),
            forall|j: int| start <= j < i ==> !is_structural(s@[j]),
        decreases end - i,
    {
        if is_structural_exec(s.get_char(i)) {
            assert(stripped(s@)[i - start] == s@[i as int]);
            return false;
        }
        i += 1;
    }
    true
}

/// Validates an optional metadata argument as JSON text.
///
/// No argument is no metadata. A valid JSON text parses to its value. An
/// invalid one fails: with the double-quoting hint when the input looks
/// like a bare unquoted string, else with the parser's own diagnostic.
pub fn parse_metadata(arg: Option<&str>) -> (r: Result<Option<serde_json::Value>, PutError>)
    ensures
        arg is None ==> (r matches Ok(v) && v is None),
        arg matches Some(s) ==> {
            &&& (r is Ok <==> json_parse_err(s@) is None)
            &&& (json_parse_err(s@) is None ==> (r matches Ok(v) && v is Some))
            &&& (json_parse_err(s@) is Some && looks_unquoted(s@) ==> (r matches Err(e)
                && e matches PutError::MetadataHint(m) && m@ == hint_message(s@)))
            &&& (json_parse_err(s@) is Some && !looks_unquoted(s@) ==> (r matches Err(e)
                && e matches PutError::MetadataRaw(m)
                && Some(m@) == json_parse_err(s@)))
        },
{
    match arg {
        None => Ok(None),
        Some(s) => match json_from_str(s) {
            Ok(v) => Ok(Some(v)),
            Err(raw) => {
                if looks_unquoted_exec(s) {
                    let mut m = String::from_str(
                        "did you remember to double quote strings, like --metadata '\"",
                    );
                    m.append(s);
                    m.append("\"'");
                    Err(PutError::MetadataHint(m))
                } else {
                    Err(PutError::MetadataRaw(raw))
                }
            },
        },
    }
}

} // verus!
