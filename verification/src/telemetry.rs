//! Whether the one anonymous install ping is still due.

use vstd::prelude::*;

verus! {

/// Whether the ping has gone out before.
///
/// `flag_present` says whether the marker that is left behind after a ping
/// exists, or is `None` when the place where it would lie cannot be
/// determined. Only a marker that is known to exist counts.
pub fn has_sent_telemetry(flag_present: Option<bool>) -> (sent: bool)
    ensures
        sent == (flag_present == Some(true)),
{
    match flag_present {
        Some(present) => present,
        None => false,
    }
}

/// Whether a ping is to be sent at the end of a setup.
///
/// It is sent once only: after the first setup (`first_setup`), if the user
/// agreed to it (`consented`), and if none went out before.
pub fn ping_is_due(first_setup: bool, consented: bool, flag_present: Option<bool>) -> (due: bool)
    ensures
        due == (first_setup && consented && flag_present != Some(true)),
{
    first_setup && consented && !has_sent_telemetry(flag_present)
}

/// Whether the user's consent has to be asked for: only when no earlier
/// setup has recorded an answer. The answer then in force is returned
/// otherwise.
pub fn recorded_consent(earlier: Option<Option<bool>>) -> (answer: Option<bool>)
    ensures
        answer == match earlier {
            Some(Some(consented)) => Some(consented),
            _ => None,
        },
{
    match earlier {
        Some(Some(consented)) => Some(consented),
        _ => None,
    }
}

} // verus!
