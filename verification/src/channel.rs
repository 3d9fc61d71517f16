use vstd::prelude::*;
use crate::messages::Reply;
use crate::messages::Request;

verus! {

/// One in-flight operation: a request paired with the single-use channel on
/// which exactly one reply is owed. Created fresh per bridge call, consumed
/// exactly once by the worker loop.
pub struct PendingCall {
    pub(crate) req: Request,
    pub(crate) reply: oneshot::Sender<Reply>,
}

#[verifier::external_type_specification]
#[verifier::external_body]
#[verifier::reject_recursive_types(T)]
pub struct ExFlumeSender<T>(flume::Sender<T>);

#[verifier::external_type_specification]
#[verifier::external_body]
#[verifier::reject_recursive_types(T)]
pub struct ExFlumeReceiver<T>(flume::Receiver<T>);

#[verifier::external_type_specification]
#[verifier::external_body]
#[verifier::reject_recursive_types(T)]
pub struct ExOneshotSender<T>(oneshot::Sender<T>);

#[verifier::external_type_specification]
#[verifier::external_body]
#[verifier::reject_recursive_types(T)]
pub struct ExOneshotReceiver<T>(oneshot::Receiver<T>);

/// Relies on flume::unbounded for a fresh request channel whose send side may
/// be shared across threads and whose sends never block.
#[verifier::external_body]
pub(crate) fn new_request_channel() -> (flume::Sender<PendingCall>, flume::Receiver<PendingCall>) {
    flume::unbounded()
}

/// Relies on flume::Sender::send: on an unbounded channel it never blocks, and
/// it fails exactly when every receiver has been dropped. Whether the send
/// succeeds depends on the worker's side of the channel, so nothing more than
/// the outcome itself can be promised.
#[verifier::external_body]
pub(crate) fn send_request(tx: &flume::Sender<PendingCall>, call: PendingCall) -> bool {
    tx.send(call).is_ok()
}

/// Relies on flume::Receiver::recv: blocks until a message arrives and returns
/// it, or reports failure once the channel is empty and every sender has been
/// dropped. Which of the two happens depends on the other threads.
#[verifier::external_body]
pub(crate) fn recv_request(rx: &flume::Receiver<PendingCall>) -> Option<PendingCall> {
    rx.recv().ok()
}

/// Relies on oneshot::channel for a fresh single-use reply channel.
#[verifier::external_body]
pub(crate) fn new_reply_channel() -> (oneshot::Sender<Reply>, oneshot::Receiver<Reply>) {
    oneshot::channel()
}

/// Relies on oneshot::Sender::send: it delivers the reply unless the receiver
/// has already been dropped, in which case the reply is quietly discarded; it
/// never blocks. A caller that gave up on its reply is not the worker's concern.
#[verifier::external_body]
pub(crate) fn send_reply(tx: oneshot::Sender<Reply>, reply: Reply) {
    tx.send(reply).ok();
}

/// Relies on oneshot::Receiver::recv: blocks until the reply arrives and
/// returns it, or reports failure if the sender was dropped without replying.
#[verifier::external_body]
pub(crate) fn recv_reply(rx: oneshot::Receiver<Reply>) -> Option<Reply> {
    rx.recv().ok()
}

} // verus!
