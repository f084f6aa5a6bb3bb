use form_relay::config::{load_config, ConfigError};
use form_relay::outcome::{interpret_outcome, ResponseStatus, UpstreamOutcome};
use form_relay::submission::{
    build_outbound, compose_from, plan_submission, receive, ClientInputError, FormSubmission,
};

fn s(text: &str) -> Option<String> {
    Some(text.to_string())
}

fn full_config() -> form_relay::config::ProcessConfig {
    load_config(
        s("key-0123456789"),
        s("example.com"),
        s("inbox@example.com"),
        None,
        None,
    )
    .unwrap()
}

#[test]
fn config_accepts_complete_environment_with_defaults() {
    let c = full_config();
    assert_eq!(c.api_key, "key-0123456789");
    assert_eq!(c.domain, "example.com");
    assert_eq!(c.to_address, "inbox@example.com");
    assert_eq!(c.bind_address, "0.0.0.0");
    assert_eq!(c.port, "8088");
}

#[test]
fn config_uses_given_bind_address_and_port() {
    let c = load_config(
        s("k"),
        s("d"),
        s("t"),
        s("127.0.0.1"),
        s("9000"),
    )
    .unwrap();
    assert_eq!(c.bind_address, "127.0.0.1");
    assert_eq!(c.port, "9000");
}

#[test]
fn config_rejects_missing_api_key() {
    let r = load_config(None, s("d"), s("t"), None, None);
    assert_eq!(r.err().unwrap(), ConfigError::MissingApiKey);
}

#[test]
fn config_rejects_empty_api_key() {
    let r = load_config(s(""), s("d"), s("t"), None, None);
    assert_eq!(r.err().unwrap(), ConfigError::MissingApiKey);
}

#[test]
fn config_rejects_missing_domain() {
    let r = load_config(s("k"), None, s("t"), None, None);
    assert_eq!(r.err().unwrap(), ConfigError::MissingDomain);
}

#[test]
fn config_rejects_missing_to_address() {
    let r = load_config(s("k"), s("d"), s(""), None, None);
    assert_eq!(r.err().unwrap(), ConfigError::MissingToAddress);
}

#[test]
fn config_error_names_its_variable() {
    assert_eq!(ConfigError::MissingApiKey.variable(), "MAILGUN_API_KEY");
    assert_eq!(ConfigError::MissingDomain.variable(), "MAILGUN_DOMAIN");
    assert_eq!(ConfigError::MissingToAddress.variable(), "MAILGUN_TO_ADDRESS");
}

#[test]
fn upstream_url_embeds_the_domain() {
    let c = full_config();
    assert_eq!(
        c.upstream_url(),
        "https://api.mailgun.net/v3/example.com/messages"
    );
}

#[test]
fn api_key_prefix_takes_six_characters() {
    let c = full_config();
    assert_eq!(c.api_key_prefix(), "key-01");
}

#[test]
fn api_key_prefix_of_a_short_key_is_the_key() {
    let c = load_config(s("abc"), s("d"), s("t"), None, None).unwrap();
    assert_eq!(c.api_key_prefix(), "abc");
}

#[test]
fn compose_from_formats_name_and_address() {
    assert_eq!(
        compose_from("Jane Doe", "jane@example.com"),
        "Jane Doe <jane@example.com>"
    );
}

#[test]
fn outbound_request_carries_the_submission_verbatim() {
    let c = full_config();
    let submission = FormSubmission {
        from_name: "Jane Doe".to_string(),
        from_email: "jane@example.com".to_string(),
        title: "Hello".to_string(),
        body: "A question about the site.".to_string(),
    };
    let q = build_outbound(&c, &submission);
    assert_eq!(q.from, "Jane Doe <jane@example.com>");
    assert_eq!(q.to, "inbox@example.com");
    assert_eq!(q.subject, "Hello");
    assert_eq!(q.text, "A question about the site.");
}

#[test]
fn plan_accepts_a_complete_submission() {
    let c = full_config();
    let q = plan_submission(&c, s("Jane"), s("j@e.com"), s("Hi"), s("Text")).unwrap();
    assert_eq!(q.from, "Jane <j@e.com>");
    assert_eq!(q.to, "inbox@example.com");
    assert_eq!(q.subject, "Hi");
    assert_eq!(q.text, "Text");
}

#[test]
fn plan_rejects_each_missing_field() {
    let c = full_config();
    let r = plan_submission(&c, None, s("e"), s("t"), s("b"));
    assert_eq!(r.err().unwrap(), ClientInputError::MissingFromName);
    let r = plan_submission(&c, s("n"), None, s("t"), s("b"));
    assert_eq!(r.err().unwrap(), ClientInputError::MissingFromEmail);
    let r = plan_submission(&c, s("n"), s("e"), None, s("b"));
    assert_eq!(r.err().unwrap(), ClientInputError::MissingTitle);
    let r = plan_submission(&c, s("n"), s("e"), s("t"), None);
    assert_eq!(r.err().unwrap(), ClientInputError::MissingBody);
}

#[test]
fn receive_accepts_empty_field_values() {
    let got = receive(s(""), s(""), s(""), s("")).unwrap();
    assert_eq!(got.from_name, "");
    assert_eq!(got.body, "");
}

#[test]
fn upstream_success_maps_to_plain_success() {
    let r = interpret_outcome(&UpstreamOutcome::Response {
        status: 200,
        body: String::new(),
    });
    assert_eq!(r.http_status, 200);
    assert_eq!(r.status, ResponseStatus::Sent);
    assert_eq!(r.message, None);
}

#[test]
fn any_two_hundred_class_status_counts_as_success() {
    let r = interpret_outcome(&UpstreamOutcome::Response {
        status: 204,
        body: "ignored".to_string(),
    });
    assert_eq!(r.http_status, 200);
    assert_eq!(r.status, ResponseStatus::Sent);
    assert_eq!(r.message, None);
}

#[test]
fn upstream_unauthorized_surfaces_the_raw_body() {
    let r = interpret_outcome(&UpstreamOutcome::Response {
        status: 401,
        body: "unauthorized".to_string(),
    });
    assert_eq!(r.http_status, 502);
    assert_eq!(r.status, ResponseStatus::MailAgentError);
    assert_eq!(r.message.as_deref(), Some("unauthorized"));
}

#[test]
fn upstream_failure_with_json_body_surfaces_the_provider_message() {
    let r = interpret_outcome(&UpstreamOutcome::Response {
        status: 500,
        body: "{\"message\":\"domain not found\"}".to_string(),
    });
    assert_eq!(r.http_status, 502);
    assert_eq!(r.status, ResponseStatus::MailAgentError);
    assert_eq!(r.message.as_deref(), Some("domain not found"));
}

#[test]
fn upstream_failure_with_unreadable_body_is_a_data_format_error() {
    let r = interpret_outcome(&UpstreamOutcome::Response {
        status: 500,
        body: "not json at all".to_string(),
    });
    assert_eq!(r.http_status, 500);
    assert_eq!(r.status, ResponseStatus::InternalError);
    assert_eq!(r.message.as_deref(), Some("invalid response from mail agent"));
}

#[test]
fn transport_failure_is_an_internal_error() {
    let r = interpret_outcome(&UpstreamOutcome::TransportFailure {
        detail: "connection refused".to_string(),
    });
    assert_eq!(r.http_status, 500);
    assert_eq!(r.status, ResponseStatus::InternalError);
    assert_eq!(r.message.as_deref(), Some("connection refused"));
}

#[test]
fn a_failure_does_not_disturb_the_next_request() {
    let failed = interpret_outcome(&UpstreamOutcome::TransportFailure {
        detail: "connection refused".to_string(),
    });
    assert_eq!(failed.status, ResponseStatus::InternalError);
    let next = interpret_outcome(&UpstreamOutcome::Response {
        status: 200,
        body: String::new(),
    });
    assert_eq!(next.http_status, 200);
    assert_eq!(next.status, ResponseStatus::Sent);
}

#[test]
fn concurrent_submissions_share_config_but_not_content() {
    let c = full_config();
    let first = FormSubmission {
        from_name: "A".to_string(),
        from_email: "a@example.com".to_string(),
        title: "first title".to_string(),
        body: "first body".to_string(),
    };
    let second = FormSubmission {
        from_name: "B".to_string(),
        from_email: "b@example.com".to_string(),
        title: "second title".to_string(),
        body: "second body".to_string(),
    };
    let q1 = build_outbound(&c, &first);
    let q2 = build_outbound(&c, &second);
    assert_eq!(q1.to, q2.to);
    assert_ne!(q1.subject, q2.subject);
    assert_ne!(q1.text, q2.text);
    assert_ne!(q1.from, q2.from);
    // the shared configuration is untouched by either call
    assert_eq!(c.to_address, "inbox@example.com");
    assert_eq!(c.domain, "example.com");
}
