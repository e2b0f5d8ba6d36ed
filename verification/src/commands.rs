//! Outcomes of the two front-end commands.
//!
//! Each command ends in a platform call whose answer arrives here as a plain
//! `Result`: the URL-opener's attempt to hand a URL to the operating system,
//! and the listener-start's attempt to bind a loopback socket.  The functions
//! below shape those answers into what the caller is promised: success passes
//! through unchanged, and every failure carries a non-empty message.

use vstd::prelude::*;

verus! {

/// The message reported when an underlying failure carried no text of its own.
pub open spec fn unknown_failure() -> Seq<char> {
    "unknown error"@
}

/// The message reported when a bind succeeded but named no usable port.
pub open spec fn no_port_message() -> Seq<char> {
    "listener bound no usable port"@
}

/// What the reported failure message is, given the underlying error's text:
/// that text when it says anything, a fixed message otherwise.
pub open spec fn spec_failure_message(raw: Seq<char>) -> Seq<char> {
    if raw.len() > 0 {
        raw
    } else {
        unknown_failure()
    }
}

/// A reported failure message is never empty, whatever the underlying
/// error's text was.
pub proof fn lemma_failure_message_nonempty(raw: Seq<char>)
    ensures
        spec_failure_message(raw).len() > 0,
{
    reveal_strlit("unknown error");
}

/// Shape the text of an underlying error into the failure payload handed to
/// the caller.
pub fn failure_message(raw: String) -> (r: String)
    ensures
        r@ == spec_failure_message(raw@),
        r@.len() > 0,
{
    proof {
        reveal_strlit("unknown error");
    }
    if raw.as_str().is_empty() {
        String::from_str("unknown error")
    } else {
        raw
    }
}

/// The result the URL-opener hands back, given how the platform's open
/// attempt ended: success exactly when the attempt succeeded, and otherwise
/// a failure carrying the attempt's error text, never empty.
pub fn open_url_outcome(attempt: Result<(), String>) -> (r: Result<(), String>)
    ensures
        attempt is Ok <==> r is Ok,
        attempt matches Err(e) ==> (r matches Err(m) && m@ == spec_failure_message(e@)),
        r matches Err(m) ==> m@.len() > 0,
{
    match attempt {
        Ok(()) => Ok(()),
        Err(e) => Err(failure_message(e)),
    }
}

/// The result the listener-start hands back, given how the bind ended: the
/// bound port when it is a usable one — a port in the range 1..=65535 — and
/// otherwise a failure carrying a non-empty message.  A bind that reports
/// port zero assigned no real port and is reported as a failure.
pub fn start_server_outcome(bind: Result<u16, String>) -> (r: Result<u16, String>)
    ensures
        bind matches Ok(p) ==> ((p >= 1 ==> r == Ok::<u16, String>(p)) && (p == 0 ==> (
        r matches Err(m) && m@ == no_port_message()))),
        bind matches Err(e) ==> (r matches Err(m) && m@ == spec_failure_message(e@)),
        r matches Ok(p) ==> 1 <= p <= 65535,
        r matches Err(m) ==> m@.len() > 0,
{
    proof {
        reveal_strlit("listener bound no usable port");
    }
    match bind {
        Ok(p) => {
            if p >= 1 {
                Ok(p)
            } else {
                Err(String::from_str("listener bound no usable port"))
            }
        },
        Err(e) => Err(failure_message(e)),
    }
}

} // verus!
