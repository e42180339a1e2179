//! Input events and their log lines.
//!
//! The input logger polls the physical gamepad subsystem and prints one line
//! for each event it delivers. The logic of that loop is here: an
//! [`InputEvent`] carries the identity of the source device and the
//! description of the state change, and [`log_lines`] renders a batch of
//! events into exactly one line each, in delivery order. The polling and the
//! printing stay in the binary around the library.

use vstd::prelude::*;
use vstd::string::StringExecFns;

verus! {

/// A notification from a physical game controller: the identifier of the
/// originating device, and a description of the button or axis change.
#[derive(Clone, Debug, PartialEq, Eq)]
pub struct InputEvent {
    /// Identifier of the device the event came from.
    pub device: u64,
    /// Rendered description of the state change.
    pub payload: String,
}

/// The decimal digit characters, indexed by digit value.
pub open spec fn digit_char(d: int) -> char
    recommends
        0 <= d < 10,
{
    seq!['0', '1', '2', '3', '4', '5', '6', '7', '8', '9'][d]
}

/// The decimal rendering of a non-negative integer, most significant digit
/// first, with no leading zeros (a lone zero for zero itself).
pub open spec fn decimal_of(n: int) -> Seq<char>
    recommends
        0 <= n,
    decreases n,
{
    if n < 10 {
        seq![digit_char(n)]
    } else {
        decimal_of(n / 10).push(digit_char(n % 10))
    }
}

fn digit_str(d: u64) -> (s: &'static str)
    requires
        d < 10,
    ensures
        s@.len() == 1,
        s@[0] == digit_char(d as int),
{
    proof {
        reveal_strlit("0");
        reveal_strlit("1");
        reveal_strlit("2");
        reveal_strlit("3");
        reveal_strlit("4");
        reveal_strlit("5");
        reveal_strlit("6");
        reveal_strlit("7");
        reveal_strlit("8");
        reveal_strlit("9");
    }
    if d == 0 {
        "0"
    } else if d == 1 {
        "1"
    } else if d == 2 {
        "2"
    } else if d == 3 {
        "3"
    } else if d == 4 {
        "4"
    } else if d == 5 {
        "5"
    } else if d == 6 {
        "6"
    } else if d == 7 {
        "7"
    } else if d == 8 {
        "8"
    } else {
        "9"
    }
}

/// Renders a number in decimal.
pub fn u64_to_decimal(n: u64) -> (s: String)
    ensures
        s@ == decimal_of(n as int),
    decreases n,
{
    if n < 10 {
        let s = digit_str(n).to_owned();
        proof {
            assert(s@ =~= decimal_of(n as int));
        }
        s
    } else {
        let mut s = u64_to_decimal(n / 10);
        s.append(digit_str(n % 10));
        proof {
            assert(s@ =~= decimal_of(n as int));
        }
        s
    }
}

/// The log line for one event: the source device in decimal, a separator,
/// then the event's payload.
pub open spec fn log_line_spec(e: InputEvent) -> Seq<char> {
    decimal_of(e.device as int) + ": "@ + e.payload@
}

/// Renders the log line for one event.
pub fn log_line(e: &InputEvent) -> (s: String)
    ensures
        s@ == log_line_spec(*e),
{
    let mut s = u64_to_decimal(e.device);
    s.append(": ");
    s.append(e.payload.as_str());
    proof {
        assert(s@ =~= log_line_spec(*e));
    }
    s
}

/// Renders a batch of delivered events: exactly one log line for each
/// event, in delivery order, each line carrying that event's source device
/// and payload.
pub fn log_lines(events: &Vec<InputEvent>) -> (lines: Vec<String>)
    ensures
        lines@.len() == events@.len(),
        forall|i: int| 0 <= i < events@.len() ==> #[trigger] lines@[i]@ == log_line_spec(
            events@[i],
        ),
{
    let mut lines: Vec<String> = Vec::new();
    let mut i: usize = 0;
    while i < events.len()
        invariant
            i <= events@.len(),
            lines@.len() == i,
            forall|j: int| 0 <= j < i ==> #[trigger] lines@[j]@ == log_line_spec(events@[j]),
        decreases events@.len() - i,
    {
        let line = log_line(&events[i]);
        lines.push(line);
        i = i + 1;
    }
    lines
}

} // verus!
