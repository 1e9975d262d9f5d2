//! Interpreting the HTTP response of a put: a status in the success range
//! is a success; anything else is a rejection carrying the provider's
//! error list, parsed from the body or empty when the body does not parse.

use vstd::prelude::*;
use crate::outside::{api_errors_of, parse_error_envelope};

verus! {

/// One entry of the provider's error list: a numeric code and a message.
pub struct ErrorEntry {
    pub code: u16,
    pub message: String,
}

/// The `(code, message)` pairs an error list stands for.
pub open spec fn entries_view(v: Seq<ErrorEntry>) -> Seq<(u16, Seq<char>)> {
    v.map_values(|e: ErrorEntry| (e.code, e.message@))
}

/// How a put ended at the remote service.
///
/// A rejection is an outcome, not an error: it is reported to the user
/// while the call itself completes, whereas everything that stops a put
/// before a response arrives is a `PutError`.
pub enum Outcome {
    /// The status was in the success range.
    Success,
    /// The status was outside the success range; `errors` holds the
    /// provider's error list, empty when the body did not parse.
    Rejection { status: u16, errors: Vec<ErrorEntry> },
}

/// An HTTP status in the range the provider counts as success.
pub open spec fn is_success_status(status: u16) -> bool {
    200 <= status < 300
}

/// The character of one decimal digit.
pub open spec fn dec_digit(n: nat) -> char {
    if n == 0 {
        '0'
    } else if n == 1 {
        '1'
    } else if n == 2 {
        '2'
    } else if n == 3 {
        '3'
    } else if n == 4 {
        '4'
    } else if n == 5 {
        '5'
    } else if n == 6 {
        '6'
    } else if n == 7 {
        '7'
    } else if n == 8 {
        '8'
    } else {
        '9'
    }
}

/// The decimal rendering of a number, most significant digit first.
pub open spec fn dec_of(n: nat) -> Seq<char>
    decreases n,
{
    if n < 10 {
        seq![dec_digit(n)]
    } else {
        dec_of(n / 10) + seq![dec_digit(n % 10)]
    }
}

fn digit_str(n: u16) -> (r: &'static str)
    requires
        n < 10,
    ensures
        r@ == seq![dec_digit(n as nat)],
{
    proof {
        reveal_strlit("0");
        reveal_strlit("1");
        reveal_strlit("2");
        reveal_strlit("3");
        reveal_strlit("4");
        reveal_strlit("5");
        reveal_strlit("6");
        reveal_strlit("7");
        reveal_strlit("8");
        reveal_strlit("9");
    }
    if n == 0 {
        "0"
    } else if n == 1 {
        "1"
    } else if n == 2 {
        "2"
    } else if n == 3 {
        "3"
    } else if n == 4 {
        "4"
    } else if n == 5 {
        "5"
    } else if n == 6 {
        "6"
    } else if n == 7 {
        "7"
    } else if n == 8 {
        "8"
    } else {
        "9"
    }
}

/// Renders a number in decimal.
pub fn u16_to_dec(n: u16) -> (r: String)
    ensures
        r@ == dec_of(n as nat),
    decreases n,
{
    if n < 10 {
        String::from_str(digit_str(n))
    } else {
        let prefix = u16_to_dec(n / 10);
        prefix.concat(digit_str(n % 10))
    }
}

/// The report line of one error entry.
pub open spec fn entry_line(e: (u16, Seq<char>)) -> Seq<char> {
    "\nError "@ + dec_of(e.0 as nat) + ": "@ + e.1
}

/// The report lines of an error list, in order.
pub open spec fn errors_report(s: Seq<(u16, Seq<char>)>) -> Seq<char>
    decreases s.len(),
{
    if s.len() == 0 {
        Seq::<char>::empty()
    } else {
        errors_report(s.drop_last()) + entry_line(s.last())
    }
}

impl Outcome {
    /// The full text this outcome puts before the user: `Success`, or a
    /// report of the rejecting status and every error the provider sent.
    pub open spec fn report_spec(self) -> Seq<char> {
        match self {
            Outcome::Success => "Success"@,
            Outcome::Rejection { status, errors } => "HTTP "@ + dec_of(status as nat)
                + errors_report(entries_view(errors@)),
        }
    }

    /// Renders the user-facing text of this outcome.
    pub fn report(&self) -> (r: String)
        ensures
            r@ == self.report_spec(),
    {
        match self {
            Outcome::Success => String::from_str("Success"),
            Outcome::Rejection { status, errors } => {
                let mut r = String::from_str("HTTP ");
                let status_text = u16_to_dec(*status);
                r.append(status_text.as_str());
                let mut i: usize = 0;
                while i < errors.len()
                    invariant
                        i <= errors.len(),
                        r@ == "HTTP "@ + dec_of(*status as nat) + errors_report(
                            entries_view(errors@).take(i as int),
                        ),
                    decreases errors.len() - i,
                {
                    let ghost prev = entries_view(errors@).take(i as int);
                    r.append("\nError ");
                    let code_text = u16_to_dec(errors[i].code);
                    r.append(code_text.as_str());
                    r.append(": ");
                    r.append(errors[i].message.as_str());
                    i += 1;
                    proof {
                        let cur = entries_view(errors@).take(i as int);
                        assert(cur.drop_last() =~= prev);
                        assert(cur.last() == entries_view(errors@)[i - 1]);
                    }
                }
                proof {
                    assert(entries_view(errors@).take(errors@.len() as int) =~= entries_view(
                        errors@,
                    ));
                }
                r
            },
        }
    }
}

/// Classifies a response by its status code and body text.
pub fn interpret_response(status: u16, body: &str) -> (r: Outcome)
    ensures
        is_success_status(status) <==> r is Success,
        !is_success_status(status) ==> (r matches Outcome::Rejection { status: st, errors }
            && st == status
            && (api_errors_of(body@) matches Some(s) ==> entries_view(errors@) == s)
            && (api_errors_of(body@) is None ==> errors@.len() == 0)),
{
    if 200 <= status && status < 300 {
        Outcome::Success
    } else {
        let errors = match parse_error_envelope(body) {
            Some(v) => v,
            None => Vec::new(),
        };
        proof {
            if api_errors_of(body@) is Some {
                assert(entries_view(errors@) =~= api_errors_of(body@)->Some_0);
            }
        }
        Outcome::Rejection { status, errors }
    }
}

} // verus!
