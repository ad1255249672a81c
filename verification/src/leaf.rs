//! Leaf operations: the opaque asynchronous units of work the orchestrator
//! races and joins. Each is identified by a delay, after which it yields a
//! deterministic message. The waiting itself happens in the runtime outside
//! the library; the messages and the completion timing are modelled here.

use vstd::prelude::*;

verus! {

/// The larger of two delays, measured in whole time units.
pub open spec fn spec_max_u64(a: u64, b: u64) -> u64 {
    if a < b {
        b
    } else {
        a
    }
}

/// Executable counterpart of `spec_max_u64`.
pub fn max_u64(a: u64, b: u64) -> (r: u64)
    ensures
        r == spec_max_u64(a, b),
{
    if a < b {
        b
    } else {
        a
    }
}

/// The decimal digit characters.
pub open spec fn spec_digit_char(d: nat) -> char {
    if d == 0 {
        '0'
    } else if d == 1 {
        '1'
    } else if d == 2 {
        '2'
    } else if d == 3 {
        '3'
    } else if d == 4 {
        '4'
    } else if d == 5 {
        '5'
    } else if d == 6 {
        '6'
    } else if d == 7 {
        '7'
    } else if d == 8 {
        '8'
    } else {
        '9'
    }
}

/// The decimal numeral of a number, most significant digit first.
pub open spec fn spec_decimal_digits(n: nat) -> Seq<char>
    decreases n,
{
    if n < 10 {
        seq![spec_digit_char(n)]
    } else {
        spec_decimal_digits(n / 10) + seq![spec_digit_char(n % 10)]
    }
}

/// The message a leaf operation with the given delay yields: the delay in
/// guillemets, then the operation's name.
pub open spec fn spec_request_date_message(delay: u64) -> Seq<char> {
    seq!['《'] + spec_decimal_digits(delay as nat) + seq!['》'] + "request_date"@
}

/// A single decimal digit as a string.
fn digit_str(d: u64) -> (s: &'static str)
    requires
        d < 10,
    ensures
        s@ == seq![spec_digit_char(d as nat)],
{
    if d == 0 {
        proof {
            reveal_strlit("0");
            assert("0"@ =~= seq![spec_digit_char(0)]);
        }
        "0"
    } else if d == 1 {
        proof {
            reveal_strlit("1");
            assert("1"@ =~= seq![spec_digit_char(1)]);
        }
        "1"
    } else if d == 2 {
        proof {
            reveal_strlit("2");
            assert("2"@ =~= seq![spec_digit_char(2)]);
        }
        "2"
    } else if d == 3 {
        proof {
            reveal_strlit("3");
            assert("3"@ =~= seq![spec_digit_char(3)]);
        }
        "3"
    } else if d == 4 {
        proof {
            reveal_strlit("4");
            assert("4"@ =~= seq![spec_digit_char(4)]);
        }
        "4"
    } else if d == 5 {
        proof {
            reveal_strlit("5");
            assert("5"@ =~= seq![spec_digit_char(5)]);
        }
        "5"
    } else if d == 6 {
        proof {
            reveal_strlit("6");
            assert("6"@ =~= seq![spec_digit_char(6)]);
        }
        "6"
    } else if d == 7 {
        proof {
            reveal_strlit("7");
            assert("7"@ =~= seq![spec_digit_char(7)]);
        }
        "7"
    } else if d == 8 {
        proof {
            reveal_strlit("8");
            assert("8"@ =~= seq![spec_digit_char(8)]);
        }
        "8"
    } else {
        proof {
            reveal_strlit("9");
            assert("9"@ =~= seq![spec_digit_char(9)]);
        }
        "9"
    }
}

/// The decimal numeral of a number as a string.
pub fn decimal_string(n: u64) -> (s: String)
    ensures
        s@ == spec_decimal_digits(n as nat),
    decreases n,
{
    if n < 10 {
        String::from_str(digit_str(n))
    } else {
        let mut s = decimal_string(n / 10);
        let d = digit_str(n % 10);
        s.append(d);
        proof {
            assert(n as nat / 10 == (n / 10) as nat);
            assert(n as nat % 10 == (n % 10) as nat);
        }
        s
    }
}

/// The message a leaf operation with the given delay yields on completion.
pub fn request_date_message(delay: u64) -> (s: String)
    ensures
        s@ == spec_request_date_message(delay),
{
    let mut s = String::from_str("《");
    let digits = decimal_string(delay);
    s.append(digits.as_str());
    s.append("》");
    s.append("request_date");
    proof {
        reveal_strlit("《");
        reveal_strlit("》");
        assert("《"@ =~= seq!['《']);
        assert("》"@ =~= seq!['》']);
    }
    s
}

/// The value the slow background operation yields once its delay elapses.
pub fn async_io_message() -> (s: String)
    ensures
        s@ == "Hello, world!"@,
{
    String::from_str("Hello, world!")
}

/// The value the farewell background task sends once its delay elapses.
pub fn goodbye_message() -> (s: String)
    ensures
        s@ == "Goodbye, world!"@,
{
    String::from_str("Goodbye, world!")
}

/// Result of joining two leaf operations.
pub struct JoinOutcome {
    /// The first operation's message.
    pub first: String,
    /// The second operation's message.
    pub second: String,
    /// Time units from the start of the group until the join returns:
    /// both operations run concurrently, so the slower one decides.
    pub elapsed: u64,
}

/// The parallel join of two leaf operations: both results are retained, and
/// the group completes only when the slower of the two delays has elapsed.
pub fn parallel_join(d1: u64, d2: u64) -> (r: JoinOutcome)
    ensures
        r.elapsed == spec_max_u64(d1, d2),
        r.first@ == spec_request_date_message(d1),
        r.second@ == spec_request_date_message(d2),
{
    JoinOutcome {
        first: request_date_message(d1),
        second: request_date_message(d2),
        elapsed: max_u64(d1, d2),
    }
}

} // verus!
