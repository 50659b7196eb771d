use batch_mailer::auth::check_request_token;
use batch_mailer::auth::validate_token;
use batch_mailer::auth::ApiTokenError;
use batch_mailer::dispatch::DispatchOutcome;
use batch_mailer::handler::gate_batch;
use batch_mailer::mail::parse_sender;
use batch_mailer::mail::prepare_message;
use batch_mailer::mail::BuildError;
use batch_mailer::models::email_request;
use batch_mailer::numeral::u64_to_string;
use batch_mailer::policy::DispatchPolicy;
use batch_mailer::response::aggregate;
use batch_mailer::response::unauthorized_response;

fn req(to: &str, subject: &str, body: &str) -> email_request {
    email_request {
        to_email: to.to_owned(),
        cc_emails: None,
        bcc_emails: None,
        subject: subject.to_owned(),
        body: body.to_owned(),
    }
}

#[test]
fn validate_token_accepts_exact_match_only() {
    let secret = "hunter2".to_owned();
    assert!(validate_token("hunter2".to_owned(), &secret));
    assert!(!validate_token("Hunter2".to_owned(), &secret));
    assert!(!validate_token("".to_owned(), &secret));
}

#[test]
fn missing_token_is_refused_like_a_wrong_one() {
    let secret = "s3cret".to_owned();
    let absent = check_request_token(None, &secret);
    let wrong = check_request_token(Some("other".to_owned()), &secret);
    // absence and mismatch are indistinguishable to the caller
    assert_eq!(absent.unwrap_err(), ApiTokenError::Invalid);
    assert_eq!(wrong.unwrap_err(), ApiTokenError::Invalid);
}

#[test]
fn wrong_token_is_refused() {
    let secret = "s3cret".to_owned();
    let r = check_request_token(Some("other".to_owned()), &secret);
    assert_eq!(r.unwrap_err(), ApiTokenError::Invalid);
}

#[test]
fn matching_token_is_accepted() {
    let secret = "s3cret".to_owned();
    let tok = check_request_token(Some("s3cret".to_owned()), &secret).unwrap();
    assert_eq!(tok.0, "s3cret");
}

#[test]
fn auth_rejection_yields_401_and_no_dispatcher() {
    let secret = "s3cret".to_owned();
    let batch = vec![req("a@x.com", "s1", "b1"), req("b@x.com", "s2", "b2")];
    let r = gate_batch(Some("wrong".to_owned()), &secret, batch);
    // no dispatcher exists, so no transport call can ever be issued
    let resp = match r {
        Ok(_) => panic!("gate accepted a wrong token"),
        Err(resp) => resp,
    };
    assert_eq!(resp.status, 401);
    assert!(resp.data.is_none());
}

#[test]
fn gate_accepts_matching_token() {
    let secret = "s3cret".to_owned();
    let r = gate_batch(Some("s3cret".to_owned()), &secret, Vec::new());
    assert!(r.is_ok());
}

#[test]
fn unauthorized_response_is_401() {
    let r = unauthorized_response();
    assert_eq!(r.status, 401);
    assert_eq!(r.message, "Unauthorized");
    assert!(r.data.is_none());
}

#[test]
fn aggregate_reports_failure_count_in_message() {
    let failed = vec![
        req("a@x.com", "s1", "b1"),
        req("b@x.com", "s2", "b2"),
        req("c@x.com", "s3", "b3"),
    ];
    let outcome = DispatchOutcome { succeeded: Vec::new(), failed: failed.clone() };
    let r = aggregate(outcome);
    assert_eq!(r.status, 500);
    assert_eq!(r.message, "Had 3 errors");
    assert_eq!(r.data, Some(failed));
}

#[test]
fn numeral_renders_exact_decimals() {
    assert_eq!(u64_to_string(0), "0");
    assert_eq!(u64_to_string(7), "7");
    assert_eq!(u64_to_string(10), "10");
    assert_eq!(u64_to_string(12345), "12345");
    assert_eq!(u64_to_string(u64::MAX), "18446744073709551615");
}

#[test]
fn sender_address_parses_through_lettre() {
    assert!(parse_sender("sender@example.com").is_ok());
    assert!(parse_sender("Sender Name <sender@example.com>").is_ok());
    assert!(matches!(parse_sender("bad-address"), Err(BuildError::InvalidAddress)));
    assert!(matches!(parse_sender(""), Err(BuildError::InvalidAddress)));
}

#[test]
fn prepare_message_builds_for_valid_recipient_only() {
    let from = parse_sender("sender@example.com").unwrap();
    assert!(prepare_message(&from, &req("a@x.com", "s", "b")).is_ok());
    let r = prepare_message(&from, &req("bad-address", "s", "b"));
    assert!(matches!(r, Err(BuildError::InvalidAddress)));
}

#[test]
fn policy_directs_pacing_only_when_sequential() {
    let seq_policy = DispatchPolicy::SequentialPaced { pacing_millis: 1000 };
    let par_policy = DispatchPolicy::BoundedParallel { pool_width: 4 };
    assert_eq!(seq_policy.pacing_after_send(), Some(1000));
    assert_eq!(par_policy.pacing_after_send(), None);
    assert_eq!(seq_policy.worker_width(), 1);
    assert_eq!(par_policy.worker_width(), 4);
}
