//! The text the supervisor hands to its collaborators: the URL the
//! front-end is pointed at once the backend is ready, and the shape of the
//! diagnostic log lines.
//!
//! Formatting is done by hand so that every produced string is pinned,
//! character for character, by its contract.

use vstd::prelude::*;
use vstd::string::StringExecFns;

verus! {

/// The decimal digit character for `d`, for `d < 10`.
pub open spec fn digit_char(d: nat) -> char {
    if d == 0 {
        '0'
    } else if d == 1 {
        '1'
    } else if d == 2 {
        '2'
    } else if d == 3 {
        '3'
    } else if d == 4 {
        '4'
    } else if d == 5 {
        '5'
    } else if d == 6 {
        '6'
    } else if d == 7 {
        '7'
    } else if d == 8 {
        '8'
    } else {
        '9'
    }
}

/// The decimal digit sequence of `n`, most significant digit first, with no
/// leading zeros (a single `'0'` for zero).
pub open spec fn dec_digits(n: nat) -> Seq<char>
    decreases n,
{
    if n < 10 {
        seq![digit_char(n)]
    } else {
        dec_digits(n / 10).push(digit_char(n % 10))
    }
}

/// The one-character string for a single decimal digit.
fn digit_str(d: u16) -> (s: &'static str)
    requires
        d < 10,
    ensures
        s@ == seq![digit_char(d as nat)],
{
    if d == 0 {
        proof {
            reveal_strlit("0");
            assert("0"@ =~= seq![digit_char(d as nat)]);
        }
        "0"
    } else if d == 1 {
        proof {
            reveal_strlit("1");
            assert("1"@ =~= seq![digit_char(d as nat)]);
        }
        "1"
    } else if d == 2 {
        proof {
            reveal_strlit("2");
            assert("2"@ =~= seq![digit_char(d as nat)]);
        }
        "2"
    } else if d == 3 {
        proof {
            reveal_strlit("3");
            assert("3"@ =~= seq![digit_char(d as nat)]);
        }
        "3"
    } else if d == 4 {
        proof {
            reveal_strlit("4");
            assert("4"@ =~= seq![digit_char(d as nat)]);
        }
        "4"
    } else if d == 5 {
        proof {
            reveal_strlit("5");
            assert("5"@ =~= seq![digit_char(d as nat)]);
        }
        "5"
    } else if d == 6 {
        proof {
            reveal_strlit("6");
            assert("6"@ =~= seq![digit_char(d as nat)]);
        }
        "6"
    } else if d == 7 {
        proof {
            reveal_strlit("7");
            assert("7"@ =~= seq![digit_char(d as nat)]);
        }
        "7"
    } else if d == 8 {
        proof {
            reveal_strlit("8");
            assert("8"@ =~= seq![digit_char(d as nat)]);
        }
        "8"
    } else {
        proof {
            reveal_strlit("9");
            assert("9"@ =~= seq![digit_char(d as nat)]);
        }
        "9"
    }
}

/// The decimal rendering of `n`, exactly [`dec_digits`].
pub fn dec_u16(n: u16) -> (s: String)
    ensures
        s@ == dec_digits(n as nat),
    decreases n,
{
    if n < 10 {
        String::from_str(digit_str(n))
    } else {
        let mut s = dec_u16(n / 10);
        s.append(digit_str(n % 10));
        proof {
            assert(s@ =~= dec_digits(n as nat));
        }
        s
    }
}

/// The characters of the URL the front-end is pointed at when the backend
/// listens on `port`.
pub open spec fn ready_url_chars(port: u16) -> Seq<char> {
    "http://localhost:"@ + dec_digits(port as nat)
}

/// Builds `http://localhost:<port>`, the live view's address once the
/// backend on `port` answered a readiness probe.
pub fn ready_url(port: u16) -> (s: String)
    ensures
        s@ == ready_url_chars(port),
{
    let mut s = String::from_str("http://localhost:");
    let digits = dec_u16(port);
    s.append(digits.as_str());
    s
}

/// A diagnostic message tagged with the component it came from:
/// `[<context>] <message>`.
pub fn tagged_message(context: &str, message: &str) -> (s: String)
    ensures
        s@ == "["@ + context@ + "] "@ + message@,
{
    let mut s = String::from_str("[");
    s.append(context);
    s.append("] ");
    s.append(message);
    s
}

/// One line of the append-only diagnostics log:
/// `<timestamp> <entry>` followed by a newline.
pub fn log_line(timestamp: &str, entry: &str) -> (s: String)
    ensures
        s@ == timestamp@ + " "@ + entry@ + "\n"@,
{
    let mut s = String::from_str(timestamp);
    s.append(" ");
    s.append(entry);
    s.append("\n");
    s
}

} // verus!
