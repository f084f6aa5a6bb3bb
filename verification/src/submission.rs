//! The inbound form submission and the outbound mail request built from it.
//!
//! The listener decodes the form body (framework-level behavior) and hands
//! each field in as an `Option<String>`; this module decides whether the
//! submission is complete and, with the process configuration, composes the
//! outbound request field for field.

use crate::config::ProcessConfig;
use vstd::prelude::*;
use vstd::string::StringExecFns;

verus! {

/// The four-field payload the relay accepts from its client, taken verbatim
/// from the form body.
pub struct FormSubmission {
    pub from_name: String,
    pub from_email: String,
    pub title: String,
    pub body: String,
}

/// Which required form field was absent from the client's request.
#[derive(Clone, Copy, Debug, PartialEq, Eq, Structural)]
pub enum ClientInputError {
    MissingFromName,
    MissingFromEmail,
    MissingTitle,
    MissingBody,
}

/// Accepts the decoded form fields when all four are present, or reports the
/// first missing one (in the order name, email, title, body).  Presence is
/// the only requirement: empty strings are accepted verbatim.
pub fn receive(
    from_name: Option<String>,
    from_email: Option<String>,
    title: Option<String>,
    body: Option<String>,
) -> (r: Result<FormSubmission, ClientInputError>)
    ensures
        r is Ok <==> from_name is Some && from_email is Some && title is Some && body is Some,
        from_name is None ==> r == Result::<FormSubmission, ClientInputError>::Err(
            ClientInputError::MissingFromName,
        ),
        from_name is Some && from_email is None ==> r == Result::<
            FormSubmission,
            ClientInputError,
        >::Err(ClientInputError::MissingFromEmail),
        from_name is Some && from_email is Some && title is None ==> r == Result::<
            FormSubmission,
            ClientInputError,
        >::Err(ClientInputError::MissingTitle),
        from_name is Some && from_email is Some && title is Some && body is None ==> r == Result::<
            FormSubmission,
            ClientInputError,
        >::Err(ClientInputError::MissingBody),
        r matches Ok(s) ==> {
            &&& s.from_name == from_name.unwrap()
            &&& s.from_email == from_email.unwrap()
            &&& s.title == title.unwrap()
            &&& s.body == body.unwrap()
        },
{
    let from_name = match from_name {
        Some(s) => s,
        None => {
            return Err(ClientInputError::MissingFromName);
        },
    };
    let from_email = match from_email {
        Some(s) => s,
        None => {
            return Err(ClientInputError::MissingFromEmail);
        },
    };
    let title = match title {
        Some(s) => s,
        None => {
            return Err(ClientInputError::MissingTitle);
        },
    };
    let body = match body {
        Some(s) => s,
        None => {
            return Err(ClientInputError::MissingBody);
        },
    };
    Ok(FormSubmission { from_name, from_email, title, body })
}

/// The form-encoded body of the outbound provider request.
pub struct OutboundMailRequest {
    pub from: String,
    pub to: String,
    pub subject: String,
    pub text: String,
}

/// The composed sender line: the display name, a space, and the address in
/// angle brackets.
pub open spec fn spec_from_line(from_name: Seq<char>, from_email: Seq<char>) -> Seq<char> {
    from_name + " <"@ + from_email + ">"@
}

/// How a correct outbound request relates to the configuration and the
/// submission it was built from: composed sender, configured recipient, the
/// submitted title as subject and the submitted body as text.
pub open spec fn outbound_matches(
    config: &ProcessConfig,
    submission: &FormSubmission,
    r: &OutboundMailRequest,
) -> bool {
    &&& r.from@ == spec_from_line(submission.from_name@, submission.from_email@)
    &&& r.to@ == config.to_address@
    &&& r.subject@ == submission.title@
    &&& r.text@ == submission.body@
}

/// Composes the outbound sender line from the submitted name and address.
/// Neither part is validated or escaped.
pub fn compose_from(from_name: &str, from_email: &str) -> (r: String)
    ensures
        r@ == spec_from_line(from_name@, from_email@),
{
    let mut line = String::from_str(from_name);
    line.append(" <");
    line.append(from_email);
    line.append(">");
    proof {
        assert(line@ =~= spec_from_line(from_name@, from_email@));
    }
    line
}

/// Builds the outbound provider request for one submission.
pub fn build_outbound(config: &ProcessConfig, submission: &FormSubmission) -> (r:
    OutboundMailRequest)
    ensures
        outbound_matches(config, submission, &r),
{
    OutboundMailRequest {
        from: compose_from(submission.from_name.as_str(), submission.from_email.as_str()),
        to: config.to_address.clone(),
        subject: submission.title.clone(),
        text: submission.body.clone(),
    }
}

/// The whole inbound half of one request: accept the decoded form fields and
/// build the outbound request.  A submission with any field missing is
/// rejected, and then no outbound request exists at all, so nothing can be
/// dispatched for it.
pub fn plan_submission(
    config: &ProcessConfig,
    from_name: Option<String>,
    from_email: Option<String>,
    title: Option<String>,
    body: Option<String>,
) -> (r: Result<OutboundMailRequest, ClientInputError>)
    ensures
        r is Ok <==> from_name is Some && from_email is Some && title is Some && body is Some,
        from_name is None ==> r == Result::<OutboundMailRequest, ClientInputError>::Err(
            ClientInputError::MissingFromName,
        ),
        from_name is Some && from_email is None ==> r == Result::<
            OutboundMailRequest,
            ClientInputError,
        >::Err(ClientInputError::MissingFromEmail),
        from_name is Some && from_email is Some && title is None ==> r == Result::<
            OutboundMailRequest,
            ClientInputError,
        >::Err(ClientInputError::MissingTitle),
        from_name is Some && from_email is Some && title is Some && body is None ==> r == Result::<
            OutboundMailRequest,
            ClientInputError,
        >::Err(ClientInputError::MissingBody),
        r matches Ok(q) ==> {
            &&& q.from@ == spec_from_line(from_name.unwrap()@, from_email.unwrap()@)
            &&& q.to@ == config.to_address@
            &&& q.subject@ == title.unwrap()@
            &&& q.text@ == body.unwrap()@
        },
{
    match receive(from_name, from_email, title, body) {
        Ok(submission) => Ok(build_outbound(config, &submission)),
        Err(e) => Err(e),
    }
}

/// Submissions handled under one configuration do not interfere: each
/// outbound request is determined by its own submission's fields alone, both
/// share the configured recipient, and the configuration is the same for
/// both (it is never mutated).  In particular, submissions that differ in
/// title or body yield outbound requests that differ in the same place.
pub proof fn lemma_submissions_independent(
    config: &ProcessConfig,
    s1: &FormSubmission,
    s2: &FormSubmission,
    r1: &OutboundMailRequest,
    r2: &OutboundMailRequest,
)
    requires
        outbound_matches(config, s1, r1),
        outbound_matches(config, s2, r2),
    ensures
        r1.to@ == r2.to@,
        s1.title@ != s2.title@ ==> r1.subject@ != r2.subject@,
        s1.body@ != s2.body@ ==> r1.text@ != r2.text@,
        s1.from_name@ == s2.from_name@ && s1.from_email@ == s2.from_email@ ==> r1.from@ == r2.from@,
{
}

} // verus!
