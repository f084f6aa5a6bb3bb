//! Mapping the upstream outcome of one outbound call to the relay's own
//! response.
//!
//! The provider's answer (or the failure to get one) is handed in as plain
//! values; this module makes the one genuine decision of the relay:
//!
//! - upstream 2xx: success, no message;
//! - upstream 401: the provider is known to answer this status with a
//!   non-JSON body, so the raw body text is surfaced as the message, with no
//!   JSON parsing attempted;
//! - any other non-2xx: the body is parsed as the provider's JSON error
//!   body; its `"message"` is surfaced, or a generic data-format error when
//!   it does not parse;
//! - transport failure: an internal error carrying the failure's text.
//!
//! Provider-originated failures (401 and other non-2xx with a readable
//! message) map to downstream status 502; local failures (an unreadable
//! provider body, or no answer at all) map to 500.

use crate::errorbody::parse_error_message;
use crate::errorbody::spec_error_message;
use vstd::prelude::*;
use vstd::string::StringExecFns;

verus! {

/// What one outbound call came to: an answer from the provider, or none.
pub enum UpstreamOutcome {
    /// The provider answered, with this HTTP status and body text.
    Response { status: u16, body: String },
    /// The call itself failed (DNS, connect, TLS, timeout); `detail` is the
    /// failure's text.
    TransportFailure { detail: String },
}

/// The outcome class reported to the relay's caller.
#[derive(Clone, Copy, Debug, PartialEq, Eq, Structural)]
pub enum ResponseStatus {
    /// The mail was accepted by the provider.
    Sent,
    /// The provider answered, but with a failure.
    MailAgentError,
    /// The relay failed locally: no answer, or an unreadable one.
    InternalError,
}

/// The relay's answer to its client: an HTTP status code and the body's two
/// fields.
pub struct RelayResponse {
    pub http_status: u16,
    pub status: ResponseStatus,
    pub message: Option<String>,
}

/// An upstream HTTP status that counts as success.
pub open spec fn is_success_status(status: u16) -> bool {
    200 <= status < 300
}

/// Maps the outcome of one outbound call to the relay's response, as laid
/// out in the module documentation.
pub fn interpret_outcome(outcome: &UpstreamOutcome) -> (r: RelayResponse)
    ensures
        outcome matches UpstreamOutcome::Response { status, body } ==> {
            &&& is_success_status(*status) ==> r.http_status == 200 && r.status is Sent
                && r.message is None
            &&& status == 401 ==> r.http_status == 502 && r.status is MailAgentError && (
            r.message matches Some(m) && m@ == body@)
            &&& !is_success_status(*status) && status != 401 ==> {
                &&& spec_error_message(body@) matches Some(pm) ==> r.http_status == 502
                    && r.status is MailAgentError && (r.message matches Some(m) && m@ == pm)
                &&& spec_error_message(body@) is None ==> r.http_status == 500
                    && r.status is InternalError && (r.message matches Some(m) && m@
                    == "invalid response from mail agent"@)
            }
        },
        outcome matches UpstreamOutcome::TransportFailure { detail } ==> r.http_status == 500
            && r.status is InternalError && (r.message matches Some(m) && m@ == detail@),
{
    match outcome {
        UpstreamOutcome::Response { status, body } => {
            if 200 <= *status && *status < 300 {
                RelayResponse { http_status: 200, status: ResponseStatus::Sent, message: None }
            } else if *status == 401 {
                RelayResponse {
                    http_status: 502,
                    status: ResponseStatus::MailAgentError,
                    message: Some(body.clone()),
                }
            } else {
                match parse_error_message(body.as_str()) {
                    Some(m) => RelayResponse {
                        http_status: 502,
                        status: ResponseStatus::MailAgentError,
                        message: Some(m),
                    },
                    None => RelayResponse {
                        http_status: 500,
                        status: ResponseStatus::InternalError,
                        message: Some(String::from_str("invalid response from mail agent")),
                    },
                }
            }
        },
        UpstreamOutcome::TransportFailure { detail } => RelayResponse {
            http_status: 500,
            status: ResponseStatus::InternalError,
            message: Some(detail.clone()),
        },
    }
}

} // verus!
