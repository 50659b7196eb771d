use batch_mailer::dispatch::collect_outcomes;
use batch_mailer::dispatch::BatchDispatcher;
use batch_mailer::dispatch::StepAction;
use batch_mailer::mail::parse_sender;
use batch_mailer::models::email_request;
use batch_mailer::response::aggregate;

fn req(to: &str, subject: &str, body: &str) -> email_request {
    email_request {
        to_email: to.to_owned(),
        cc_emails: None,
        bcc_emails: None,
        subject: subject.to_owned(),
        body: body.to_owned(),
    }
}

fn sender() -> batch_mailer::mail::ParsedMailbox {
    parse_sender("sender@example.com").unwrap()
}

#[test]
fn empty_batch_is_all_sent_without_transport_calls() {
    let from = sender();
    let mut d = BatchDispatcher::new(Vec::new());
    let mut transport_calls: usize = 0;
    let outcome = loop {
        match d.step(&from) {
            StepAction::Transmit(_) => {
                transport_calls += 1;
                d.record(true);
            }
            StepAction::Proceed => {}
            StepAction::Finished => break d.finish(),
        }
    };
    assert_eq!(transport_calls, 0);
    assert!(outcome.succeeded.is_empty());
    assert!(outcome.failed.is_empty());
    let r = aggregate(outcome);
    assert_eq!(r.status, 200);
    assert_eq!(r.message, "Successfully sent emails!");
    assert!(r.data.is_none());
}

#[test]
fn mixed_batch_partitions_valid_and_invalid_items() {
    let from = sender();
    let item1 = req("a@x.com", "s1", "b1");
    let item2 = req("bad-address", "s2", "b2");
    let batch = vec![item1.clone(), item2.clone()];
    let mut d = BatchDispatcher::new(batch);
    let mut transport_calls: usize = 0;
    let outcome = loop {
        match d.step(&from) {
            StepAction::Transmit(_) => {
                transport_calls += 1;
                // stand-in transport that accepts every submitted message
                d.record(true);
            }
            StepAction::Proceed => {}
            StepAction::Finished => break d.finish(),
        }
    };
    assert_eq!(transport_calls, 1);
    assert_eq!(outcome.succeeded, vec![item1]);
    assert_eq!(outcome.failed, vec![item2.clone()]);
    let r = aggregate(outcome);
    assert_eq!(r.status, 500);
    assert_eq!(r.message, "Had 1 errors");
    assert_eq!(r.data, Some(vec![item2]));
}

#[test]
fn failing_transport_marks_every_item_failed() {
    let from = sender();
    let item1 = req("a@x.com", "s1", "b1");
    let mut d = BatchDispatcher::new(vec![item1.clone()]);
    let outcome = loop {
        match d.step(&from) {
            StepAction::Transmit(_) => {
                // stand-in transport that rejects every submitted message
                d.record(false);
            }
            StepAction::Proceed => {}
            StepAction::Finished => break d.finish(),
        }
    };
    assert!(outcome.succeeded.is_empty());
    assert_eq!(outcome.failed, vec![item1]);
    let r = aggregate(outcome);
    assert_eq!(r.status, 500);
}

#[test]
fn every_item_is_accounted_for_exactly_once() {
    let from = sender();
    let batch = vec![
        req("a@x.com", "s1", "b1"),
        req("bad-address", "s2", "b2"),
        req("c@x.com", "s3", "b3"),
        req("d@x.com", "s4", "b4"),
    ];
    let mut d = BatchDispatcher::new(batch.clone());
    // transport alternates: accept, reject, accept, ...
    let mut next_ok = true;
    let outcome = loop {
        match d.step(&from) {
            StepAction::Transmit(_) => {
                d.record(next_ok);
                next_ok = !next_ok;
            }
            StepAction::Proceed => {}
            StepAction::Finished => break d.finish(),
        }
    };
    assert_eq!(outcome.succeeded.len() + outcome.failed.len(), batch.len());
    for item in &batch {
        let in_succeeded = outcome.succeeded.contains(item);
        let in_failed = outcome.failed.contains(item);
        assert!(in_succeeded != in_failed);
    }
}

#[test]
fn collect_outcomes_partitions_in_batch_order() {
    let a = req("a@x.com", "s1", "b1");
    let b = req("b@x.com", "s2", "b2");
    let c = req("c@x.com", "s3", "b3");
    let batch = vec![a.clone(), b.clone(), c.clone()];
    let sent = vec![true, false, true];
    let outcome = collect_outcomes(batch, &sent);
    assert_eq!(outcome.succeeded, vec![a, c]);
    assert_eq!(outcome.failed, vec![b]);
}

#[test]
fn collect_outcomes_keeps_duplicate_items_apart() {
    let a = req("a@x.com", "s", "b");
    let batch = vec![a.clone(), a.clone()];
    let sent = vec![true, false];
    let outcome = collect_outcomes(batch, &sent);
    assert_eq!(outcome.succeeded, vec![a.clone()]);
    assert_eq!(outcome.failed, vec![a]);
}

#[test]
fn collect_outcomes_empty_batch_yields_empty_outcome() {
    let outcome = collect_outcomes(Vec::new(), &Vec::new());
    assert!(outcome.succeeded.is_empty());
    assert!(outcome.failed.is_empty());
}
