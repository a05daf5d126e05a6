//! The outcome of one submission to the SMTP relay.
//!
//! The transport that talks to the relay lives outside this library. It
//! reports what happened as a `RelayReport`, and `classify` turns the report
//! into the dispatcher's result.

use vstd::prelude::*;

verus! {

/// Why a request was not delivered.
#[derive(Clone, Copy, Debug, PartialEq, Eq, Structural)]
pub enum DispatchError {
    /// The relay could not be reached, refused the credentials, or asked
    /// to try again later.
    ConnectionFailed,
    /// The relay refused the message for good.
    Rejected,
    /// The relay did not answer in time.
    Timeout,
}

/// Whether a failed request may succeed when tried again.
#[derive(Clone, Copy, Debug, PartialEq, Eq, Structural)]
pub enum FailureKind {
    /// The input itself is at fault: trying again cannot help.
    Malformed,
    /// The transport is at fault: a later attempt may succeed.
    Transport,
}

/// How the attempt to deliver one request ended.
#[derive(Clone, Copy, Debug, PartialEq, Eq, Structural)]
pub enum DispatchOutcome {
    Delivered,
    Failed(FailureKind),
}

/// The kind of failure that the transport met.
#[derive(Clone, Copy, Debug, PartialEq, Eq, Structural)]
pub enum RelayFault {
    /// The relay answered with this negative reply code.
    Reply(u16),
    /// The relay answered with something that is no SMTP reply.
    Response,
    /// The client gave up by itself: the relay lacks something that the
    /// client needs to go on.
    Client,
    /// No secure connection could be set up.
    Tls,
    /// The transport had been shut down.
    Shutdown,
    /// The relay could not be reached, or the connection broke.
    Network,
}

/// What the transport saw of one submission.
#[derive(Clone, Copy, Debug, PartialEq, Eq, Structural)]
pub enum RelayReport {
    /// The relay accepted the message for delivery.
    Accepted,
    /// The submission failed in this way, and by running out of time where
    /// `timed_out` is set.
    Failed { fault: RelayFault, timed_out: bool },
    /// The request could not be put into a message; nothing was sent.
    NotComposed,
}

/// Whether a reply code tells of the credentials rather than of the
/// message: authentication required (530), mechanism too weak (534),
/// credentials invalid (535), encryption required (538).
pub open spec fn is_authentication_reply(code: u16) -> bool {
    code == 530 || code == 534 || code == 535 || code == 538
}

/// Whether a reply code is a permanent negative reply, 500 to 599.
pub open spec fn is_permanent_reply(code: u16) -> bool {
    500 <= code <= 599
}

/// The dispatcher's error for a failure that did not run out of time.
///
/// Only a permanent reply that is about the message counts as a rejection.
/// Every other reply, a transient one above all, is a failure of the
/// connection, and so is every failure without a reply: a garbled answer, a
/// client that gave up, a failed TLS setup, a transport shut down, a relay
/// out of reach. None of these says that the message is at fault, so each
/// leaves the message to a later attempt.
pub open spec fn fault_error(fault: RelayFault) -> DispatchError {
    match fault {
        RelayFault::Reply(code) => if is_permanent_reply(code) && !is_authentication_reply(code) {
            DispatchError::Rejected
        } else {
            DispatchError::ConnectionFailed
        },
        RelayFault::Response => DispatchError::ConnectionFailed,
        RelayFault::Client => DispatchError::ConnectionFailed,
        RelayFault::Tls => DispatchError::ConnectionFailed,
        RelayFault::Shutdown => DispatchError::ConnectionFailed,
        RelayFault::Network => DispatchError::ConnectionFailed,
    }
}

/// The dispatcher's result for a report.
///
/// A failure that ran out of time is a timeout, whatever its kind. A
/// request that could not be put into a message is rejected.
pub open spec fn classify_spec(report: RelayReport) -> Result<(), DispatchError> {
    match report {
        RelayReport::Accepted => Ok(()),
        RelayReport::Failed { fault, timed_out } => if timed_out {
            Err(DispatchError::Timeout)
        } else {
            Err(fault_error(fault))
        },
        RelayReport::NotComposed => Err(DispatchError::Rejected),
    }
}

/// Turns the transport's report into the dispatcher's result.
pub fn classify(report: RelayReport) -> (result: Result<(), DispatchError>)
    ensures
        result == classify_spec(report),
{
    match report {
        RelayReport::Accepted => Ok(()),
        RelayReport::Failed { fault, timed_out } => {
            if timed_out {
                return Err(DispatchError::Timeout);
            }
            match fault {
                RelayFault::Reply(code) => {
                    let about_credentials = code == 530 || code == 534 || code == 535 || code
                        == 538;
                    if 500 <= code && code <= 599 && !about_credentials {
                        Err(DispatchError::Rejected)
                    } else {
                        Err(DispatchError::ConnectionFailed)
                    }
                },
                RelayFault::Response => Err(DispatchError::ConnectionFailed),
                RelayFault::Client => Err(DispatchError::ConnectionFailed),
                RelayFault::Tls => Err(DispatchError::ConnectionFailed),
                RelayFault::Shutdown => Err(DispatchError::ConnectionFailed),
                RelayFault::Network => Err(DispatchError::ConnectionFailed),
            }
        },
        RelayReport::NotComposed => Err(DispatchError::Rejected),
    }
}

impl DispatchError {
    /// Whether the error lies with the input or with the transport.
    pub open spec fn kind_spec(self) -> FailureKind {
        match self {
            DispatchError::Rejected => FailureKind::Malformed,
            DispatchError::ConnectionFailed => FailureKind::Transport,
            DispatchError::Timeout => FailureKind::Transport,
        }
    }

    /// Whether the error lies with the input or with the transport.
    pub fn kind(self) -> (kind: FailureKind)
        ensures
            kind == self.kind_spec(),
    {
        match self {
            DispatchError::Rejected => FailureKind::Malformed,
            DispatchError::ConnectionFailed => FailureKind::Transport,
            DispatchError::Timeout => FailureKind::Transport,
        }
    }
}

/// The outcome that a dispatcher's result stands for.
pub open spec fn outcome_spec(result: Result<(), DispatchError>) -> DispatchOutcome {
    match result {
        Ok(_) => DispatchOutcome::Delivered,
        Err(error) => DispatchOutcome::Failed(error.kind_spec()),
    }
}

/// The outcome that a dispatcher's result stands for.
pub fn outcome_of(result: Result<(), DispatchError>) -> (outcome: DispatchOutcome)
    ensures
        outcome == outcome_spec(result),
{
    match result {
        Ok(_) => DispatchOutcome::Delivered,
        Err(error) => DispatchOutcome::Failed(error.kind()),
    }
}

} // verus!
