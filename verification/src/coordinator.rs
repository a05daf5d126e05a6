//! The delivery coordinator: what becomes of one message from the queue.
//!
//! A message is parsed, a parsed request is handed to the dispatcher, and
//! the way this ends decides what the broker is told. The coordinator does
//! no I/O. It is a state machine: the worker feeds it what happened as an
//! `Event` and carries out the `Action` it answers with.
//!
//! ```text
//! Received --Parsed(Err)--------------------------> RejectedNoRequeue
//! Received --Faulted------------------------------> RejectedRequeue
//! Received --Parsed(Ok)--> Dispatching
//!                          Dispatching --Dispatched(Ok)-----> Acked
//!                          Dispatching --Dispatched(Err)----> RejectedNoRequeue | RejectedRequeue
//!                          Dispatching --Faulted------------> RejectedNoRequeue
//! ```
//!
//! Every other event leaves the delivery as it is and calls for nothing.

use vstd::prelude::*;

use crate::dispatch::{outcome_of, outcome_spec, DispatchError, DispatchOutcome, FailureKind};
use crate::request::{parse, parse_spec, EmailRequest, ParseError, RequestView};

verus! {

/// What the broker is told of a message.
#[derive(Clone, Copy, Debug, PartialEq, Eq, Structural)]
pub enum AckDecision {
    /// The work is done: the message leaves the queue.
    Ack,
    /// The message is discarded and not delivered again.
    RejectNoRequeue,
    /// The message goes back to the queue.
    RejectRequeue,
}

impl AckDecision {
    /// Whether the consumer should pause before it takes the next message:
    /// after a requeue, so that a relay that is down is not hammered with
    /// the same message.
    pub fn calls_for_pause(self) -> (pause: bool)
        ensures
            pause == (self == AckDecision::RejectRequeue),
    {
        match self {
            AckDecision::RejectRequeue => true,
            _ => false,
        }
    }
}

/// The decision that an outcome calls for: a delivered message is
/// acknowledged, malformed input is discarded, and a transport failure is
/// requeued.
pub open spec fn decision_for_spec(outcome: DispatchOutcome) -> AckDecision {
    match outcome {
        DispatchOutcome::Delivered => AckDecision::Ack,
        DispatchOutcome::Failed(FailureKind::Malformed) => AckDecision::RejectNoRequeue,
        DispatchOutcome::Failed(FailureKind::Transport) => AckDecision::RejectRequeue,
    }
}

/// The decision that an outcome calls for.
pub fn decision_for(outcome: DispatchOutcome) -> (decision: AckDecision)
    ensures
        decision == decision_for_spec(outcome),
{
    match outcome {
        DispatchOutcome::Delivered => AckDecision::Ack,
        DispatchOutcome::Failed(FailureKind::Malformed) => AckDecision::RejectNoRequeue,
        DispatchOutcome::Failed(FailureKind::Transport) => AckDecision::RejectRequeue,
    }
}

/// Why a delivery was settled.
#[derive(Clone, Copy, Debug, PartialEq, Eq, Structural)]
pub enum Cause {
    /// The relay accepted the email.
    Delivered,
    /// The payload was no request.
    Unparsed(ParseError),
    /// The dispatcher failed.
    Undelivered(DispatchError),
    /// Something broke before the request went to the dispatcher: no email
    /// can have been sent.
    FaultBeforeDispatch,
    /// Something broke while the dispatcher was at work: an email may have
    /// been sent.
    FaultDuringDispatch,
}

/// The decision for a cause.
///
/// A payload that is no request counts as malformed input. A fault is
/// requeued only where a second delivery cannot send the email twice.
pub open spec fn decide_spec(cause: Cause) -> AckDecision {
    match cause {
        Cause::Delivered => decision_for_spec(DispatchOutcome::Delivered),
        Cause::Unparsed(_) => decision_for_spec(DispatchOutcome::Failed(FailureKind::Malformed)),
        Cause::Undelivered(error) => decision_for_spec(outcome_spec(Err(error))),
        Cause::FaultBeforeDispatch => AckDecision::RejectRequeue,
        Cause::FaultDuringDispatch => AckDecision::RejectNoRequeue,
    }
}

/// The decision for a cause.
pub fn decide(cause: Cause) -> (decision: AckDecision)
    ensures
        decision == decide_spec(cause),
{
    match cause {
        Cause::Delivered => decision_for(DispatchOutcome::Delivered),
        Cause::Unparsed(_) => decision_for(DispatchOutcome::Failed(FailureKind::Malformed)),
        Cause::Undelivered(error) => decision_for(outcome_of(Err(error))),
        Cause::FaultBeforeDispatch => AckDecision::RejectRequeue,
        Cause::FaultDuringDispatch => AckDecision::RejectNoRequeue,
    }
}

/// How far the handling of a message has come.
#[derive(Clone, Copy, Debug, PartialEq, Eq, Structural)]
pub enum Stage {
    /// The message has come in and its payload is being parsed.
    Received,
    /// The request is with the dispatcher.
    Dispatching,
    /// Settled: acknowledged.
    Acked,
    /// Settled: rejected for good.
    RejectedNoRequeue,
    /// Settled: rejected and requeued.
    RejectedRequeue,
}

impl Stage {
    /// Whether the broker has been told of the message.
    pub open spec fn is_terminal_spec(self) -> bool {
        self is Acked || self is RejectedNoRequeue || self is RejectedRequeue
    }

    /// Whether the broker has been told of the message.
    pub fn is_terminal(self) -> (terminal: bool)
        ensures
            terminal == self.is_terminal_spec(),
    {
        match self {
            Stage::Received => false,
            Stage::Dispatching => false,
            _ => true,
        }
    }

    /// The stage that a delivery is in once the decision is out.
    pub open spec fn settled(decision: AckDecision) -> Stage {
        match decision {
            AckDecision::Ack => Stage::Acked,
            AckDecision::RejectNoRequeue => Stage::RejectedNoRequeue,
            AckDecision::RejectRequeue => Stage::RejectedRequeue,
        }
    }
}

/// What happened to a delivery.
#[derive(Debug)]
pub enum Event {
    /// The parser is done with the payload.
    Parsed(Result<EmailRequest, ParseError>),
    /// The dispatcher is done with the request.
    Dispatched(Result<(), DispatchError>),
    /// Something broke that no stage accounts for.
    Faulted,
}

/// The one instruction to the broker that a delivery ends with.
#[derive(Clone, Copy, Debug, PartialEq, Eq, Structural)]
pub struct Settlement {
    /// The delivery tag that the broker gave the message.
    pub tag: u64,
    pub decision: AckDecision,
    pub cause: Cause,
}

/// What the worker is to do next.
#[derive(Debug)]
pub enum Action {
    /// Hand the request to the dispatcher and report how it went.
    Submit(EmailRequest),
    /// Tell the broker. Nothing more is to be done for this delivery.
    Settle(Settlement),
    /// The event called for nothing.
    Nothing,
}

/// The cause with which an event settles a delivery, if it does.
pub open spec fn settling_cause(stage: Stage, event: Event) -> Option<Cause> {
    match (stage, event) {
        (Stage::Received, Event::Parsed(Err(error))) => Some(Cause::Unparsed(error)),
        (Stage::Received, Event::Faulted) => Some(Cause::FaultBeforeDispatch),
        (Stage::Dispatching, Event::Dispatched(Ok(_))) => Some(Cause::Delivered),
        (Stage::Dispatching, Event::Dispatched(Err(error))) => Some(Cause::Undelivered(error)),
        (Stage::Dispatching, Event::Faulted) => Some(Cause::FaultDuringDispatch),
        _ => None,
    }
}

/// The stage of a delivery after an event.
pub open spec fn next_stage(stage: Stage, event: Event) -> Stage {
    match settling_cause(stage, event) {
        Some(cause) => Stage::settled(decide_spec(cause)),
        None => match (stage, event) {
            (Stage::Received, Event::Parsed(Ok(_))) => Stage::Dispatching,
            _ => stage,
        },
    }
}

/// What an event calls for in a delivery with this tag and at this stage.
pub open spec fn next_action(tag: u64, stage: Stage, event: Event) -> Action {
    match settling_cause(stage, event) {
        Some(cause) => Action::Settle(Settlement { tag, decision: decide_spec(cause), cause }),
        None => match (stage, event) {
            (Stage::Received, Event::Parsed(Ok(request))) => Action::Submit(request),
            _ => Action::Nothing,
        },
    }
}

/// A message as it comes from the broker: the payload and the delivery tag
/// under which the broker waits for an answer.
#[derive(Debug)]
pub struct RawMessage {
    payload: Vec<u8>,
    tag: u64,
}

impl RawMessage {
    /// The bytes of the payload.
    pub closed spec fn payload_spec(&self) -> Seq<u8> {
        self.payload@
    }

    /// The delivery tag.
    pub closed spec fn tag_spec(&self) -> u64 {
        self.tag
    }

    /// A message with this payload, delivered under this tag.
    pub fn new(payload: Vec<u8>, tag: u64) -> (message: RawMessage)
        ensures
            message.payload_spec() == payload@,
            message.tag_spec() == tag,
    {
        RawMessage { payload, tag }
    }

    /// The bytes of the payload.
    pub fn payload(&self) -> (bytes: &[u8])
        ensures
            bytes@ == self.payload_spec(),
    {
        self.payload.as_slice()
    }

    /// The delivery tag.
    pub fn tag(&self) -> (tag: u64)
        ensures
            tag == self.tag_spec(),
    {
        self.tag
    }
}

/// The handling of one message: its delivery tag and the stage it is in.
#[derive(Debug)]
pub struct Delivery {
    tag: u64,
    stage: Stage,
}

impl Delivery {
    /// The delivery tag of the message.
    pub closed spec fn tag_spec(&self) -> u64 {
        self.tag
    }

    /// The stage that the delivery is in.
    pub closed spec fn stage_spec(&self) -> Stage {
        self.stage
    }

    /// A delivery that has just come in.
    pub fn new(tag: u64) -> (delivery: Delivery)
        ensures
            delivery.tag_spec() == tag,
            delivery.stage_spec() == Stage::Received,
    {
        Delivery { tag, stage: Stage::Received }
    }

    /// The delivery tag of the message.
    pub fn tag(&self) -> (tag: u64)
        ensures
            tag == self.tag_spec(),
    {
        self.tag
    }

    /// The stage that the delivery is in.
    pub fn stage(&self) -> (stage: Stage)
        ensures
            stage == self.stage_spec(),
    {
        self.stage
    }

    /// Takes an event in and says what the worker is to do.
    ///
    /// A delivery is settled by at most one event. An event that does not
    /// fit the stage changes nothing and calls for nothing.
    pub fn step(&mut self, event: Event) -> (action: Action)
        ensures
            final(self).tag_spec() == old(self).tag_spec(),
            final(self).stage_spec() == next_stage(old(self).stage_spec(), event),
            action == next_action(old(self).tag_spec(), old(self).stage_spec(), event),
    {
        let cause = match (self.stage, event) {
            (Stage::Received, Event::Parsed(Ok(request))) => {
                self.stage = Stage::Dispatching;
                return Action::Submit(request);
            },
            (Stage::Received, Event::Parsed(Err(error))) => Cause::Unparsed(error),
            (Stage::Received, Event::Faulted) => Cause::FaultBeforeDispatch,
            (Stage::Dispatching, Event::Dispatched(Ok(_))) => Cause::Delivered,
            (Stage::Dispatching, Event::Dispatched(Err(error))) => Cause::Undelivered(error),
            (Stage::Dispatching, Event::Faulted) => Cause::FaultDuringDispatch,
            _ => {
                return Action::Nothing;
            },
        };
        let decision = decide(cause);
        self.stage = match decision {
            AckDecision::Ack => Stage::Acked,
            AckDecision::RejectNoRequeue => Stage::RejectedNoRequeue,
            AckDecision::RejectRequeue => Stage::RejectedRequeue,
        };
        Action::Settle(Settlement { tag: self.tag, decision, cause })
    }
}

/// Whether `parsed` is what the parser makes of `payload`.
pub open spec fn is_parse_of(parsed: Result<EmailRequest, ParseError>, payload: Seq<u8>) -> bool {
    match parsed {
        Ok(request) => parse_spec(payload) == Ok::<RequestView, ParseError>(request@),
        Err(error) => parse_spec(payload) == Err::<RequestView, ParseError>(error),
    }
}

/// Takes a message in: parses its payload and makes the first step of its
/// delivery, the one for the event `Parsed`.
///
/// A payload that parses is to be submitted, and no other is: for a payload
/// that is no request the delivery is settled at once, rejected without
/// requeue, and the settlement names the parse error.
pub fn handle(message: RawMessage) -> (started: (Delivery, Action))
    ensures
        started.0.tag_spec() == message.tag_spec(),
        exists|parsed: Result<EmailRequest, ParseError>|
            {
                &&& #[trigger] is_parse_of(parsed, message.payload_spec())
                &&& started.0.stage_spec() == next_stage(Stage::Received, Event::Parsed(parsed))
                &&& started.1 == next_action(
                    message.tag_spec(),
                    Stage::Received,
                    Event::Parsed(parsed),
                )
            },
        match parse_spec(message.payload_spec()) {
            Ok(view) => {
                &&& started.0.stage_spec() == Stage::Dispatching
                &&& started.1 matches Action::Submit(request)
                &&& request@ == view
            },
            Err(error) => {
                &&& started.0.stage_spec() == Stage::RejectedNoRequeue
                &&& started.1 == Action::Settle(
                    Settlement {
                        tag: message.tag_spec(),
                        decision: AckDecision::RejectNoRequeue,
                        cause: Cause::Unparsed(error),
                    },
                )
            },
        },
{
    let mut delivery = Delivery::new(message.tag());
    let parsed = parse(message.payload());
    proof {
        assert(is_parse_of(parsed, message.payload_spec()));
    }
    let action = delivery.step(Event::Parsed(parsed));
    (delivery, action)
}

/// The stage of a delivery after a run of events.
pub open spec fn stage_after(stage: Stage, events: Seq<Event>) -> Stage
    decreases events.len(),
{
    if events.len() == 0 {
        stage
    } else {
        stage_after(next_stage(stage, events.first()), events.drop_first())
    }
}

/// The actions that a run of events calls for, one for each event.
pub open spec fn actions_of(tag: u64, stage: Stage, events: Seq<Event>) -> Seq<Action>
    decreases events.len(),
{
    if events.len() == 0 {
        Seq::empty()
    } else {
        seq![next_action(tag, stage, events.first())] + actions_of(
            tag,
            next_stage(stage, events.first()),
            events.drop_first(),
        )
    }
}

/// How often the actions tell the broker.
pub open spec fn settlements(actions: Seq<Action>) -> nat
    decreases actions.len(),
{
    if actions.len() == 0 {
        0
    } else if actions.first() is Settle {
        1 + settlements(actions.drop_first())
    } else {
        settlements(actions.drop_first())
    }
}

/// How often the actions ask the dispatcher.
pub open spec fn submissions(actions: Seq<Action>) -> nat
    decreases actions.len(),
{
    if actions.len() == 0 {
        0
    } else if actions.first() is Submit {
        1 + submissions(actions.drop_first())
    } else {
        submissions(actions.drop_first())
    }
}

proof fn lemma_counts_of_run(tag: u64, stage: Stage, events: Seq<Event>)
    ensures
        actions_of(tag, stage, events).len() == events.len(),
        settlements(actions_of(tag, stage, events)) == if stage.is_terminal_spec() == stage_after(
            stage,
            events,
        ).is_terminal_spec() {
            0nat
        } else {
            1nat
        },
        submissions(actions_of(tag, stage, events)) <= if stage is Received {
            1nat
        } else {
            0nat
        },
        stage.is_terminal_spec() ==> stage_after(stage, events) == stage,
    decreases events.len(),
{
    if events.len() > 0 {
        let head = next_action(tag, stage, events.first());
        let tail = actions_of(tag, next_stage(stage, events.first()), events.drop_first());
        lemma_counts_of_run(tag, next_stage(stage, events.first()), events.drop_first());
        assert((seq![head] + tail).first() == head);
        assert((seq![head] + tail).drop_first() =~= tail);
    }
}

/// Whatever happens to a delivery, the broker is told of it at most once
/// and the dispatcher is asked at most once. The broker has been told
/// exactly when the delivery has reached a terminal stage, and from there
/// no event moves it.
pub proof fn lemma_settles_at_most_once(tag: u64, events: Seq<Event>)
    ensures
        settlements(actions_of(tag, Stage::Received, events)) <= 1,
        submissions(actions_of(tag, Stage::Received, events)) <= 1,
        settlements(actions_of(tag, Stage::Received, events)) == 1 <==> stage_after(
            Stage::Received,
            events,
        ).is_terminal_spec(),
{
    lemma_counts_of_run(tag, Stage::Received, events);
}

/// A delivery that is settled stays as it is: whatever events follow, its
/// stage does not change, the broker is not told again and the dispatcher
/// is not asked.
pub proof fn lemma_settled_is_final(tag: u64, stage: Stage, events: Seq<Event>)
    requires
        stage.is_terminal_spec(),
    ensures
        stage_after(stage, events) == stage,
        settlements(actions_of(tag, stage, events)) == 0,
        submissions(actions_of(tag, stage, events)) == 0,
{
    lemma_counts_of_run(tag, stage, events);
}

/// Every word to the broker names the delivery's own tag, and its decision
/// is the one that its cause calls for.
pub proof fn lemma_settlement_names_tag(tag: u64, stage: Stage, events: Seq<Event>, i: int)
    requires
        0 <= i < events.len(),
    ensures
        actions_of(tag, stage, events).len() == events.len(),
        actions_of(tag, stage, events)[i] matches Action::Settle(settlement) ==> settlement.tag
            == tag && settlement.decision == decide_spec(settlement.cause),
    decreases events.len(),
{
    lemma_counts_of_run(tag, stage, events);
    if i > 0 {
        lemma_settlement_names_tag(
            tag,
            next_stage(stage, events.first()),
            events.drop_first(),
            i - 1,
        );
    }
}

/// A request that the relay accepts is acknowledged: the request is
/// submitted once, the broker is told once, with `Ack`, and nothing that
/// follows changes that.
pub proof fn lemma_delivered_is_acked(tag: u64, request: EmailRequest, rest: Seq<Event>)
    ensures
        ({
            let events = seq![Event::Parsed(Ok(request)), Event::Dispatched(Ok(()))] + rest;
            let actions = actions_of(tag, Stage::Received, events);
            &&& actions.len() == events.len()
            &&& actions[0] == Action::Submit(request)
            &&& actions[1] == Action::Settle(
                Settlement { tag, decision: AckDecision::Ack, cause: Cause::Delivered },
            )
            &&& submissions(actions) == 1
            &&& settlements(actions) == 1
            &&& stage_after(Stage::Received, events) == Stage::Acked
        }),
{
    let first = Event::Parsed(Ok(request));
    let second = Event::Dispatched(Ok(()));
    lemma_run_of_two(tag, first, second, rest);
}

/// A payload that is no request is rejected without requeue and never
/// reaches the dispatcher: the broker is told once, and no event that
/// follows leads to a submission.
pub proof fn lemma_unparsed_is_discarded(tag: u64, error: ParseError, rest: Seq<Event>)
    ensures
        ({
            let events = seq![Event::Parsed(Err(error))] + rest;
            let actions = actions_of(tag, Stage::Received, events);
            &&& actions.len() == events.len()
            &&& actions[0] == Action::Settle(
                Settlement {
                    tag,
                    decision: AckDecision::RejectNoRequeue,
                    cause: Cause::Unparsed(error),
                },
            )
            &&& submissions(actions) == 0
            &&& settlements(actions) == 1
            &&& stage_after(Stage::Received, events) == Stage::RejectedNoRequeue
        }),
{
    let first = Event::Parsed(Err(error));
    let events = seq![first] + rest;
    assert(events.first() == first);
    assert(events.drop_first() =~= rest);
    let head = next_action(tag, Stage::Received, first);
    let tail = actions_of(tag, Stage::RejectedNoRequeue, rest);
    assert((seq![head] + tail).first() == head);
    assert((seq![head] + tail).drop_first() =~= tail);
    lemma_counts_of_run(tag, Stage::RejectedNoRequeue, rest);
}

/// A request that the dispatcher fails on is requeued where the connection
/// failed or timed out, and rejected without requeue where the relay
/// rejected it. Either way the request was submitted once and the broker is
/// told once.
pub proof fn lemma_undelivered_is_rejected(
    tag: u64,
    request: EmailRequest,
    error: DispatchError,
    rest: Seq<Event>,
)
    ensures
        ({
            let events = seq![Event::Parsed(Ok(request)), Event::Dispatched(Err(error))] + rest;
            let actions = actions_of(tag, Stage::Received, events);
            let decision = if error == DispatchError::Rejected {
                AckDecision::RejectNoRequeue
            } else {
                AckDecision::RejectRequeue
            };
            &&& actions.len() == events.len()
            &&& actions[0] == Action::Submit(request)
            &&& actions[1] == Action::Settle(
                Settlement { tag, decision, cause: Cause::Undelivered(error) },
            )
            &&& submissions(actions) == 1
            &&& settlements(actions) == 1
            &&& stage_after(Stage::Received, events) == Stage::settled(decision)
        }),
{
    let first = Event::Parsed(Ok(request));
    let second = Event::Dispatched(Err(error));
    lemma_run_of_two(tag, first, second, rest);
}

proof fn lemma_run_of_two(tag: u64, first: Event, second: Event, rest: Seq<Event>)
    requires
        first matches Event::Parsed(Ok(_)),
        second is Dispatched,
    ensures
        ({
            let events = seq![first, second] + rest;
            let actions = actions_of(tag, Stage::Received, events);
            &&& actions.len() == events.len()
            &&& actions[0] == next_action(tag, Stage::Received, first)
            &&& actions[1] == next_action(tag, Stage::Dispatching, second)
            &&& submissions(actions) == 1
            &&& settlements(actions) == 1
            &&& stage_after(Stage::Received, events) == next_stage(Stage::Dispatching, second)
        }),
{
    let events = seq![first, second] + rest;
    let later = seq![second] + rest;
    assert(events.first() == first);
    assert(events.drop_first() =~= later);
    assert(later.first() == second);
    assert(later.drop_first() =~= rest);
    let settled = next_stage(Stage::Dispatching, second);
    let a0 = next_action(tag, Stage::Received, first);
    let a1 = next_action(tag, Stage::Dispatching, second);
    let tail = actions_of(tag, settled, rest);
    let after_first = seq![a1] + tail;
    assert(actions_of(tag, Stage::Dispatching, later) == after_first);
    assert(actions_of(tag, Stage::Received, events) == seq![a0] + after_first);
    assert(stage_after(Stage::Dispatching, later) == stage_after(settled, rest));
    assert(after_first.first() == a1);
    assert(after_first.drop_first() =~= tail);
    assert((seq![a0] + after_first).first() == a0);
    assert((seq![a0] + after_first).drop_first() =~= after_first);
    lemma_counts_of_run(tag, settled, rest);
    assert(settlements(after_first) == 1);
    assert(submissions(after_first) == 0);
}

} // verus!
