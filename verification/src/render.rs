//! Turning outcomes into caller-visible text. The public IP lookup is an
//! opaque external call whose failure must surface as a fixed placeholder,
//! never as an empty string and never as a crash.

use vstd::prelude::*;

use vstd::string::StringExecFns;

use crate::controller::SessionState;

verus! {

/// The independent IP-lookup capability failed; how is irrelevant here.
#[derive(Clone, Copy, Debug, PartialEq, Eq, Structural)]
pub enum LookupFailure {
    Unavailable,
}

/// The fixed placeholder shown when the IP lookup fails.
pub open spec fn ip_placeholder_text() -> Seq<char> {
    "Unable to get IP address"@
}

/// The IP text to display: the looked-up text itself on success, and on
/// failure exactly the fixed, non-empty placeholder — a lookup failure
/// is rendered, never propagated.
pub fn render_ip_text(lookup: Result<String, LookupFailure>) -> (text: String)
    ensures
        lookup matches Ok(address) ==> text@ == address@,
        lookup is Err ==> text@ == ip_placeholder_text() && text@.len() > 0,
{
    match lookup {
        Ok(address) => address,
        Err(_) => {
            proof {
                reveal_strlit("Unable to get IP address");
            }
            String::from_str("Unable to get IP address")
        },
    }
}

/// A fixed phrase for each session state, for a display surface or a log
/// line; the coordinates of a resolved fix are formatted by the caller.
pub fn render_state_text(state: &SessionState) -> (text: String)
    ensures
        state is Idle ==> text@ == "not started"@,
        state is Requested ==> text@ == "waiting for location"@,
        state is Resolved ==> text@ == "location acquired"@,
        state is Failed ==> text@ == "no fix obtained"@,
        state is TimedOut ==> text@ == "no fix within the timeout"@,
        text@.len() > 0,
{
    proof {
        reveal_strlit("not started");
        reveal_strlit("waiting for location");
        reveal_strlit("location acquired");
        reveal_strlit("no fix obtained");
        reveal_strlit("no fix within the timeout");
    }
    match state {
        SessionState::Idle => String::from_str("not started"),
        SessionState::Requested => String::from_str("waiting for location"),
        SessionState::Resolved(_) => String::from_str("location acquired"),
        SessionState::Failed => String::from_str("no fix obtained"),
        SessionState::TimedOut => String::from_str("no fix within the timeout"),
    }
}

} // verus!
