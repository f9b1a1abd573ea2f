//! Outcome rules of the pass-through commands. The host makes the OS call
//! (launching a browser, receiving a deep link) and these functions fix what
//! the command returns to its caller.

use vstd::prelude::*;
use vstd::string::StringExecFns;

verus! {

/// The message the open-in-browser command returns when the launcher failed:
/// a fixed prefix plus the launcher's own error.
pub open spec fn browser_error_msg(err: Seq<char>) -> Seq<char> {
    "cannot open browser: "@ + err
}

/// Outcome of the open-in-browser command, given what the OS browser
/// launcher reported: success passes through, failure becomes the message
/// the caller sees.
pub fn open_in_browser_outcome(launch: Result<(), String>) -> (r: Result<(), String>)
    ensures
        (launch is Ok) == (r is Ok),
        launch matches Err(e) ==> (r matches Err(m) && m@ == browser_error_msg(e@)),
{
    match launch {
        Ok(()) => Ok(()),
        Err(e) => {
            let mut m = String::from_str("cannot open browser: ");
            m.append(e.as_str());
            Err(m)
        },
    }
}

/// Outcome of the handle-deep-link command: every URL of the custom scheme
/// is accepted; no parsing is defined for it.
pub fn deep_link_outcome(_url: &String) -> (r: Result<(), String>)
    ensures
        r is Ok,
{
    Ok(())
}

} // verus!
