//! The error-report channel: the one cross-stream write path. A request
//! stream that observes a fatal condition sends `(code, reason)` here; the
//! driver drains the channel on every poll and closes the connection with
//! the first message (first fatal wins).
//!
//! The channel itself is tokio's unbounded multi-producer single-consumer
//! queue, taken on trust behind the wrappers below; everything decided from
//! a drained report is verified in the driver.
use vstd::prelude::*;

use crate::error::Code;

verus! {

/// tokio's unbounded mpsc sender, used as an opaque handle.
#[verifier::external_type_specification]
#[verifier::external_body]
#[verifier::reject_recursive_types(T)]
pub struct ExUnboundedSender<T>(tokio::sync::mpsc::UnboundedSender<T>);

/// tokio's unbounded mpsc receiver, used as an opaque handle.
#[verifier::external_type_specification]
#[verifier::external_body]
#[verifier::reject_recursive_types(T)]
pub struct ExUnboundedReceiver<T>(tokio::sync::mpsc::UnboundedReceiver<T>);

/// A fault reported by a request stream to the driver.
#[derive(Clone, Copy, Debug)]
pub struct ErrorReport {
    /// The connection error code to close with.
    pub code: Code,
    /// The reason, for the CONNECTION_CLOSE frame.
    pub message: &'static str,
}

/// Relies on tokio::sync::mpsc::unbounded_channel: a fresh connected
/// sender/receiver pair. Nothing about the channel's future contents can be
/// promised here; the driver states what holds of whatever it drains.
#[verifier::external_body]
pub fn report_channel() -> (tokio::sync::mpsc::UnboundedSender<ErrorReport>,
    tokio::sync::mpsc::UnboundedReceiver<ErrorReport>)
{
    tokio::sync::mpsc::unbounded_channel()
}

/// Relies on tokio::sync::mpsc::UnboundedSender::send: best-effort delivery
/// of one report. A failure means the receiver is gone, and with it the
/// connection this report was meant to close, so the result carries no
/// information worth keeping.
#[verifier::external_body]
pub fn send_report(sender: &tokio::sync::mpsc::UnboundedSender<ErrorReport>, code: Code, message:
    &'static str)
{
    let _ = sender.send(ErrorReport { code, message });
}

/// Relies on tokio::sync::mpsc::UnboundedReceiver::try_recv: a queued
/// report, or `None` when the queue is empty or all senders are gone. Which
/// report comes out depends on scheduling, so the caller must handle every
/// value.
#[verifier::external_body]
pub fn try_recv_report(receiver: &mut tokio::sync::mpsc::UnboundedReceiver<ErrorReport>) -> Option<
    ErrorReport,
> {
    receiver.try_recv().ok()
}

/// Relies on tokio::sync::mpsc::UnboundedSender::clone: another sender for
/// the same queue, handed to each request stream.
#[verifier::external_body]
pub fn clone_report_sender(sender: &tokio::sync::mpsc::UnboundedSender<ErrorReport>) ->
    tokio::sync::mpsc::UnboundedSender<ErrorReport>
{
    sender.clone()
}

} // verus!
