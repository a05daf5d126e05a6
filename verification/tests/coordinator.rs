use mail_relay::coordinator::{
    decide, decision_for, handle, AckDecision, Action, Cause, Delivery, Event, RawMessage,
    Settlement, Stage,
};
use mail_relay::dispatch::{DispatchError, DispatchOutcome, FailureKind};
use mail_relay::payload::Field;
use mail_relay::request::{parse, EmailRequest, ParseError};

const GOOD: &[u8] = br#"{"from":"a@x.com","to":"b@y.com","subject":"Hi","body":"<p>hi</p>"}"#;
const NO_RECIPIENT: &[u8] = br#"{"from":"a@x.com","subject":"Hi","body":"x"}"#;

/// What a relay stub saw of one submission.
struct Submission {
    from: String,
    to: String,
    subject: String,
    body: String,
    failed: bool,
}

/// Works one message off as a worker does: every `Submit` goes to the
/// relay stub, every `Settle` is noted.
fn work_off(
    payload: &[u8],
    tag: u64,
    relay: Result<(), DispatchError>,
) -> (Vec<Settlement>, Vec<Submission>, Stage) {
    let mut settlements = Vec::new();
    let mut submissions = Vec::new();
    let (mut delivery, mut action) = handle(RawMessage::new(payload.to_vec(), tag));
    loop {
        match action {
            Action::Submit(request) => {
                submissions.push(Submission {
                    from: request.sender().to_owned(),
                    to: request.recipient().to_owned(),
                    subject: request.subject().to_owned(),
                    body: request.body().to_owned(),
                    failed: relay.is_err(),
                });
                action = delivery.step(Event::Dispatched(relay));
            }
            Action::Settle(settlement) => {
                settlements.push(settlement);
                action = delivery.step(Event::Dispatched(relay));
            }
            Action::Nothing => break,
        }
    }
    (settlements, submissions, delivery.stage())
}

fn request() -> EmailRequest {
    parse(GOOD).expect("a well-formed request")
}

#[test]
fn a_delivered_message_is_acknowledged_once() {
    let (settlements, submissions, stage) = work_off(GOOD, 41, Ok(()));
    assert_eq!(
        settlements,
        vec![Settlement { tag: 41, decision: AckDecision::Ack, cause: Cause::Delivered }]
    );
    assert_eq!(submissions.len(), 1);
    assert_eq!(stage, Stage::Acked);
}

#[test]
fn the_submission_carries_the_fields_of_the_payload() {
    let (_, submissions, _) = work_off(GOOD, 1, Ok(()));
    assert_eq!(submissions.len(), 1);
    assert_eq!(submissions[0].from, "a@x.com");
    assert_eq!(submissions[0].to, "b@y.com");
    assert_eq!(submissions[0].subject, "Hi");
    assert_eq!(submissions[0].body, "<p>hi</p>");
    assert!(!submissions[0].failed);
}

#[test]
fn a_payload_without_recipient_is_discarded_unsent() {
    let (settlements, submissions, stage) = work_off(NO_RECIPIENT, 9, Ok(()));
    assert_eq!(
        settlements,
        vec![Settlement {
            tag: 9,
            decision: AckDecision::RejectNoRequeue,
            cause: Cause::Unparsed(ParseError::MissingField(Field::To)),
        }]
    );
    assert!(submissions.is_empty());
    assert_eq!(stage, Stage::RejectedNoRequeue);
}

#[test]
fn every_kind_of_bad_payload_is_discarded_unsent() {
    let not_json: &[u8] = b"not json";
    let not_utf8: &[u8] = &[0xff, 0x00];
    let bad_from: &[u8] = br#"{"from":"nobody","to":"b@y.com","subject":"Hi","body":"x"}"#;
    let cases: Vec<(&[u8], ParseError)> = vec![
        (not_json, ParseError::Malformed),
        (not_utf8, ParseError::Malformed),
        (b"", ParseError::Malformed),
        (NO_RECIPIENT, ParseError::MissingField(Field::To)),
        (bad_from, ParseError::InvalidAddress(Field::From)),
    ];
    for (payload, error) in cases {
        let (settlements, submissions, stage) = work_off(payload, 5, Ok(()));
        assert_eq!(
            settlements,
            vec![Settlement {
                tag: 5,
                decision: AckDecision::RejectNoRequeue,
                cause: Cause::Unparsed(error),
            }]
        );
        assert!(submissions.is_empty());
        assert_eq!(stage, Stage::RejectedNoRequeue);
    }
}

#[test]
fn an_unreachable_relay_requeues_the_message() {
    let (settlements, submissions, stage) =
        work_off(GOOD, 12, Err(DispatchError::ConnectionFailed));
    assert_eq!(
        settlements,
        vec![Settlement {
            tag: 12,
            decision: AckDecision::RejectRequeue,
            cause: Cause::Undelivered(DispatchError::ConnectionFailed),
        }]
    );
    assert_eq!(submissions.len(), 1);
    assert!(submissions[0].failed);
    assert_eq!(stage, Stage::RejectedRequeue);
}

#[test]
fn a_timeout_requeues_the_message() {
    let (settlements, submissions, stage) = work_off(GOOD, 13, Err(DispatchError::Timeout));
    assert_eq!(
        settlements,
        vec![Settlement {
            tag: 13,
            decision: AckDecision::RejectRequeue,
            cause: Cause::Undelivered(DispatchError::Timeout),
        }]
    );
    assert_eq!(submissions.len(), 1);
    assert_eq!(stage, Stage::RejectedRequeue);
}

#[test]
fn a_rejection_by_the_relay_discards_the_message() {
    let (settlements, submissions, stage) = work_off(GOOD, 14, Err(DispatchError::Rejected));
    assert_eq!(
        settlements,
        vec![Settlement {
            tag: 14,
            decision: AckDecision::RejectNoRequeue,
            cause: Cause::Undelivered(DispatchError::Rejected),
        }]
    );
    assert_eq!(submissions.len(), 1);
    assert_eq!(stage, Stage::RejectedNoRequeue);
}

#[test]
fn each_redelivery_is_settled_once_under_its_own_tag() {
    let mut told = Vec::new();
    for tag in [100u64, 101, 102] {
        let (settlements, submissions, _) =
            work_off(GOOD, tag, Err(DispatchError::ConnectionFailed));
        assert_eq!(settlements.len(), 1);
        assert_eq!(submissions.len(), 1);
        told.push(settlements[0]);
    }
    let (settlements, _, _) = work_off(GOOD, 103, Ok(()));
    assert_eq!(settlements.len(), 1);
    told.push(settlements[0]);
    let tags: Vec<u64> = told.iter().map(|s| s.tag).collect();
    assert_eq!(tags, vec![100, 101, 102, 103]);
    assert_eq!(told[0].decision, AckDecision::RejectRequeue);
    assert_eq!(told[3].decision, AckDecision::Ack);
}

#[test]
fn a_settled_delivery_answers_nothing_more() {
    let (mut delivery, action) = handle(RawMessage::new(GOOD.to_vec(), 7));
    assert!(matches!(action, Action::Submit(_)));
    assert_eq!(delivery.stage(), Stage::Dispatching);
    let action = delivery.step(Event::Dispatched(Ok(())));
    assert!(matches!(
        action,
        Action::Settle(Settlement { tag: 7, decision: AckDecision::Ack, cause: Cause::Delivered })
    ));
    assert!(delivery.stage().is_terminal());
    assert!(matches!(delivery.step(Event::Dispatched(Ok(()))), Action::Nothing));
    assert!(matches!(delivery.step(Event::Dispatched(Err(DispatchError::Timeout))), Action::Nothing));
    assert!(matches!(delivery.step(Event::Parsed(Ok(request()))), Action::Nothing));
    assert!(matches!(delivery.step(Event::Parsed(Err(ParseError::Malformed))), Action::Nothing));
    assert!(matches!(delivery.step(Event::Faulted), Action::Nothing));
    assert_eq!(delivery.stage(), Stage::Acked);
    assert_eq!(delivery.tag(), 7);
}

#[test]
fn a_request_is_submitted_once_only() {
    let mut delivery = Delivery::new(3);
    assert_eq!(delivery.stage(), Stage::Received);
    assert!(matches!(delivery.step(Event::Parsed(Ok(request()))), Action::Submit(_)));
    assert!(matches!(delivery.step(Event::Parsed(Ok(request()))), Action::Nothing));
    assert!(matches!(delivery.step(Event::Parsed(Err(ParseError::Malformed))), Action::Nothing));
    assert_eq!(delivery.stage(), Stage::Dispatching);
}

#[test]
fn an_outcome_before_any_submission_is_ignored() {
    let mut delivery = Delivery::new(3);
    assert!(matches!(delivery.step(Event::Dispatched(Ok(()))), Action::Nothing));
    assert!(matches!(delivery.step(Event::Dispatched(Err(DispatchError::Rejected))), Action::Nothing));
    assert_eq!(delivery.stage(), Stage::Received);
    assert!(!delivery.stage().is_terminal());
}

#[test]
fn a_fault_before_dispatch_requeues() {
    let mut delivery = Delivery::new(21);
    let action = delivery.step(Event::Faulted);
    assert!(matches!(
        action,
        Action::Settle(Settlement {
            tag: 21,
            decision: AckDecision::RejectRequeue,
            cause: Cause::FaultBeforeDispatch,
        })
    ));
    assert_eq!(delivery.stage(), Stage::RejectedRequeue);
}

#[test]
fn a_fault_during_dispatch_discards() {
    let (mut delivery, action) = handle(RawMessage::new(GOOD.to_vec(), 22));
    assert!(matches!(action, Action::Submit(_)));
    let action = delivery.step(Event::Faulted);
    assert!(matches!(
        action,
        Action::Settle(Settlement {
            tag: 22,
            decision: AckDecision::RejectNoRequeue,
            cause: Cause::FaultDuringDispatch,
        })
    ));
    assert_eq!(delivery.stage(), Stage::RejectedNoRequeue);
}

#[test]
fn decisions_follow_the_cause() {
    assert_eq!(decide(Cause::Delivered), AckDecision::Ack);
    assert_eq!(decide(Cause::Unparsed(ParseError::Malformed)), AckDecision::RejectNoRequeue);
    assert_eq!(
        decide(Cause::Unparsed(ParseError::MissingField(Field::Body))),
        AckDecision::RejectNoRequeue
    );
    assert_eq!(
        decide(Cause::Unparsed(ParseError::InvalidAddress(Field::To))),
        AckDecision::RejectNoRequeue
    );
    assert_eq!(decide(Cause::Undelivered(DispatchError::Rejected)), AckDecision::RejectNoRequeue);
    assert_eq!(
        decide(Cause::Undelivered(DispatchError::ConnectionFailed)),
        AckDecision::RejectRequeue
    );
    assert_eq!(decide(Cause::Undelivered(DispatchError::Timeout)), AckDecision::RejectRequeue);
    assert_eq!(decide(Cause::FaultBeforeDispatch), AckDecision::RejectRequeue);
    assert_eq!(decide(Cause::FaultDuringDispatch), AckDecision::RejectNoRequeue);
}

#[test]
fn decisions_follow_the_outcome() {
    assert_eq!(decision_for(DispatchOutcome::Delivered), AckDecision::Ack);
    assert_eq!(
        decision_for(DispatchOutcome::Failed(FailureKind::Malformed)),
        AckDecision::RejectNoRequeue
    );
    assert_eq!(
        decision_for(DispatchOutcome::Failed(FailureKind::Transport)),
        AckDecision::RejectRequeue
    );
}

#[test]
fn only_a_requeue_calls_for_a_pause() {
    assert!(AckDecision::RejectRequeue.calls_for_pause());
    assert!(!AckDecision::Ack.calls_for_pause());
    assert!(!AckDecision::RejectNoRequeue.calls_for_pause());
}

#[test]
fn the_three_settled_stages_are_terminal() {
    assert!(!Stage::Received.is_terminal());
    assert!(!Stage::Dispatching.is_terminal());
    assert!(Stage::Acked.is_terminal());
    assert!(Stage::RejectedNoRequeue.is_terminal());
    assert!(Stage::RejectedRequeue.is_terminal());
}

#[test]
fn a_raw_message_keeps_payload_and_tag() {
    let message = RawMessage::new(vec![1, 2, 3], u64::MAX);
    assert_eq!(message.payload(), &[1u8, 2, 3][..]);
    assert_eq!(message.tag(), u64::MAX);
}

#[test]
fn a_payload_with_too_many_zeros_is_discarded_unsent() {
    let mut payload =
        br#"{"from":"a@x.com","to":"b@y.com","subject":"s","body":"b","n":0."#.to_vec();
    payload.extend(std::iter::repeat(b'0').take(33_000));
    payload.push(b'}');
    let (settlements, submissions, stage) = work_off(&payload, 77, Ok(()));
    assert_eq!(
        settlements,
        vec![Settlement {
            tag: 77,
            decision: AckDecision::RejectNoRequeue,
            cause: Cause::Unparsed(ParseError::Malformed),
        }]
    );
    assert!(submissions.is_empty());
    assert_eq!(stage, Stage::RejectedNoRequeue);
}
