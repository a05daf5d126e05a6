//! The delivery and acknowledgment pipeline of a mail relay worker.
//!
//! A worker takes email-send requests from a message queue, submits each to
//! an SMTP relay and tells the broker what to do with the message. This
//! library holds the decisions of that pipeline: reading a payload into a
//! validated request, classifying what the relay reported, and choosing
//! between acknowledging, discarding and requeueing a message.

pub mod address;
pub mod payload;
pub mod request;
pub mod dispatch;
pub mod coordinator;
