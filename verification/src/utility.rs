//! The latency check.

use crate::reply::{Reply, ReplyView};
use crate::text::{decimal_digits, push_decimal};
use vstd::prelude::*;
use vstd::string::StringExecFns;

verus! {

/// The text that replaces the first answer once the delay is known.
pub open spec fn ping_text(delay_ms: u128) -> Seq<char> {
    "Pong! `"@ + decimal_digits(delay_ms as nat) + "` ms"@
}

/// The first answer to `ping`, sent before anything is measured.
pub fn ping() -> (reply: Reply)
    ensures
        reply@ == ReplyView::Answer("Pong!"@),
{
    Reply::Answer(String::from_str("Pong!"))
}

/// The text that the first answer is changed to: the milliseconds that
/// sending it took.
pub fn ping_report(delay_ms: u128) -> (s: String)
    ensures
        s@ == ping_text(delay_ms),
{
    let mut s = String::from_str("Pong! `");
    push_decimal(&mut s, delay_ms);
    s.append("` ms");
    s
}

} // verus!
