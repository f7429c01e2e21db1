//! What the sun-time service answered, and what that answer is worth.
//!
//! The request itself is made elsewhere. This module takes the answer as a
//! plain value and decides whether it yields sun times for today.

use vstd::prelude::*;

use crate::sun_times::{valid_sun_times, SunTimes};
use crate::text::same_text;
use crate::time::{CivilDate, Instant};

verus! {

/// Why the service gave no sun times.
#[derive(Clone, Copy, Debug, PartialEq, Eq, Structural)]
pub enum OracleError {
    /// The service could not be reached, or did not answer in time.
    Network,
    /// The service answered, but not with sun times: the answer could not be
    /// read, reported a failure, or broke the rule that sunrise comes before
    /// sunset.
    BadResponse,
}

impl OracleError {
    /// A short description for a log line.
    pub fn as_str(&self) -> (s: &'static str)
        ensures
            s@ == match self {
                OracleError::Network => "sun time service unreachable"@,
                OracleError::BadResponse => "sun time service gave an unusable answer"@,
            },
    {
        match self {
            OracleError::Network => "sun time service unreachable",
            OracleError::BadResponse => "sun time service gave an unusable answer",
        }
    }
}

/// The answer to one request for sun times.
#[derive(Clone, Debug)]
pub enum OracleReply {
    /// No answer arrived.
    Unreachable,
    /// An answer arrived that lacks a required part or is not in the agreed
    /// format.
    Malformed,
    /// A complete answer: the service's status word and the two instants.
    Payload { status: String, sunrise: Instant, sunset: Instant },
}

/// The status word with which the service reports success.
pub open spec fn success_status() -> Seq<char> {
    "OK"@
}

/// What a reply is worth on the day `today`.
///
/// Only a complete answer with the success status and valid times yields sun
/// times, and they are dated `today`, whatever day the service had in mind.
pub open spec fn reply_outcome(reply: OracleReply, today: CivilDate) -> Result<
    SunTimes,
    OracleError,
> {
    match reply {
        OracleReply::Unreachable => Err(OracleError::Network),
        OracleReply::Malformed => Err(OracleError::BadResponse),
        OracleReply::Payload { status, sunrise, sunset } => {
            if status@ == success_status() && valid_sun_times(sunrise@, sunset@) {
                Ok(SunTimes::of(sunrise, sunset, today))
            } else {
                Err(OracleError::BadResponse)
            }
        },
    }
}

impl SunTimes {
    /// The sun times that `reply` carries, dated `today`, or the reason why
    /// it carries none.
    pub fn from_reply(reply: &OracleReply, today: CivilDate) -> (r: Result<SunTimes, OracleError>)
        ensures
            r == reply_outcome(*reply, today),
    {
        match reply {
            OracleReply::Unreachable => Err(OracleError::Network),
            OracleReply::Malformed => Err(OracleError::BadResponse),
            OracleReply::Payload { status, sunrise, sunset } => {
                if !same_text(status.as_str(), "OK") {
                    return Err(OracleError::BadResponse);
                }
                match SunTimes::new(*sunrise, *sunset, today) {
                    Some(st) => Ok(st),
                    None => Err(OracleError::BadResponse),
                }
            },
        }
    }
}

} // verus!
