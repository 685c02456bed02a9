use vstd::prelude::*;
use vstd::string::*;

verus! {

/// Version of the application, fixed when it is built.
pub const APP_VERSION: &'static str = "0.1.0";

/// Prefix of the line logged when the system refuses a notification.
pub const NOTIFICATION_FAILURE_PREFIX: &'static str = "Failed to show notification: ";

/// The line logged for a notification the system refused for `reason`.
pub open spec fn failure_line(reason: Seq<char>) -> Seq<char> {
    NOTIFICATION_FAILURE_PREFIX@ + reason
}

/// Reports the application version; the same non-empty text on every call.
pub fn get_app_version() -> (r: String)
    ensures
        r@ == APP_VERSION@,
        r@.len() > 0,
{
    proof {
        reveal_strlit("0.1.0");
    }
    String::from_str(APP_VERSION)
}

/// Decides what to report once a notification was handed to the system.
/// A refusal never becomes an error for the caller: it only yields the line to
/// write to the error stream.
pub fn notification_log_line(outcome: &Result<(), String>) -> (r: Option<String>)
    ensures
        outcome.is_ok() ==> r.is_none(),
        outcome.is_err() ==> r.is_some() && r.unwrap()@ == failure_line(
            outcome.get_Err_0()@,
        ),
{
    match outcome {
        Ok(()) => None,
        Err(reason) => {
            let mut line = String::from_str(NOTIFICATION_FAILURE_PREFIX);
            line.append(reason.as_str());
            Some(line)
        },
    }
}

} // verus!
