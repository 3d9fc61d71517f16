use vstd::prelude::*;
use vstd::slice::slice_to_vec;
use crate::channel::PendingCall;
use crate::channel::new_reply_channel;
use crate::channel::new_request_channel;
use crate::channel::recv_reply;
use crate::channel::send_request;
use crate::messages::Error;
use crate::messages::Reply;
use crate::messages::Request;
use crate::messages::Response;
use crate::worker::Worker;
use crate::worker::worker_reply;

verus! {

/// The client-facing handle: it owns the send end of the request channel and
/// is never mutated after construction — only the channel's state changes.
/// Callers share one handle through reference counting.
pub struct Bridged {
    pub(crate) tx: flume::Sender<PendingCall>,
}

/// Builds a connected bridge handle and worker. The caller is responsible for
/// driving the worker on a thread of its own; the bridge starts no thread.
pub fn bridged() -> (Bridged, Worker) {
    let (tx, rx) = new_request_channel();
    (Bridged { tx }, Worker { rx })
}

/// What a bridge operation expecting `Response::Record` returns for each
/// reply it may find on its reply channel: success exactly on the matching
/// response; a worker-reported error is passed through; a response of any
/// other variant means the worker is defective, which is reported as
/// `WorkerStopped` since a verified operation neither panics nor aborts.
pub open spec fn record_outcome(reply: Reply) -> Result<(), Error> {
    match reply {
        Ok(Response::Record) => Ok(()),
        Ok(_) => Err(Error::WorkerStopped),
        Err(e) => Err(e),
    }
}

/// What a bridge operation expecting `Response::Playback` returns for each
/// reply, under the same rules as `record_outcome`.
pub open spec fn playback_outcome(reply: Reply) -> Result<(), Error> {
    match reply {
        Ok(Response::Playback) => Ok(()),
        Ok(_) => Err(Error::WorkerStopped),
        Err(e) => Err(e),
    }
}

/// What a bridge operation expecting `Response::GetInputDevices` returns for
/// each reply, under the same rules as `record_outcome`.
pub open spec fn input_devices_outcome(reply: Reply) -> Result<Vec<String>, Error> {
    match reply {
        Ok(Response::GetInputDevices(names)) => Ok(names),
        Ok(_) => Err(Error::WorkerStopped),
        Err(e) => Err(e),
    }
}

/// What a bridge operation expecting `Response::GetOutputDevices` returns for
/// each reply, under the same rules as `record_outcome`.
pub open spec fn output_devices_outcome(reply: Reply) -> Result<Vec<String>, Error> {
    match reply {
        Ok(Response::GetOutputDevices(names)) => Ok(names),
        Ok(_) => Err(Error::WorkerStopped),
        Err(e) => Err(e),
    }
}

/// Turns the reply found on a `Record` call's reply channel into that call's
/// result.
pub fn interpret_record_reply(reply: Reply) -> (r: Result<(), Error>)
    ensures
        r == record_outcome(reply),
{
    match reply {
        Ok(Response::Record) => Ok(()),
        Ok(_) => Err(Error::WorkerStopped),
        Err(e) => Err(e),
    }
}

/// Turns the reply found on a `Playback` call's reply channel into that
/// call's result.
pub fn interpret_playback_reply(reply: Reply) -> (r: Result<(), Error>)
    ensures
        r == playback_outcome(reply),
{
    match reply {
        Ok(Response::Playback) => Ok(()),
        Ok(_) => Err(Error::WorkerStopped),
        Err(e) => Err(e),
    }
}

/// Turns the reply found on a `GetInputDevices` call's reply channel into
/// that call's result.
pub fn interpret_input_devices_reply(reply: Reply) -> (r: Result<Vec<String>, Error>)
    ensures
        r == input_devices_outcome(reply),
{
    match reply {
        Ok(Response::GetInputDevices(names)) => Ok(names),
        Ok(_) => Err(Error::WorkerStopped),
        Err(e) => Err(e),
    }
}

/// Turns the reply found on a `GetOutputDevices` call's reply channel into
/// that call's result.
pub fn interpret_output_devices_reply(reply: Reply) -> (r: Result<Vec<String>, Error>)
    ensures
        r == output_devices_outcome(reply),
{
    match reply {
        Ok(Response::GetOutputDevices(names)) => Ok(names),
        Ok(_) => Err(Error::WorkerStopped),
        Err(e) => Err(e),
    }
}

/// Completes a `Record` call once its request is on its way: waits on the
/// reply channel, reports `WorkerStopped` if the worker went away without
/// replying, and otherwise interprets the reply.
pub fn finish_record(rx: oneshot::Receiver<Reply>) -> Result<(), Error> {
    match recv_reply(rx) {
        None => Err(Error::WorkerStopped),
        Some(reply) => interpret_record_reply(reply),
    }
}

/// Completes a `Playback` call; see `finish_record`.
pub fn finish_playback(rx: oneshot::Receiver<Reply>) -> Result<(), Error> {
    match recv_reply(rx) {
        None => Err(Error::WorkerStopped),
        Some(reply) => interpret_playback_reply(reply),
    }
}

/// Completes a `GetInputDevices` call; see `finish_record`.
pub fn finish_input_devices(rx: oneshot::Receiver<Reply>) -> Result<Vec<String>, Error> {
    match recv_reply(rx) {
        None => Err(Error::WorkerStopped),
        Some(reply) => interpret_input_devices_reply(reply),
    }
}

/// Completes a `GetOutputDevices` call; see `finish_record`.
pub fn finish_output_devices(rx: oneshot::Receiver<Reply>) -> Result<Vec<String>, Error> {
    match recv_reply(rx) {
        None => Err(Error::WorkerStopped),
        Some(reply) => interpret_output_devices_reply(reply),
    }
}

impl Bridged {
    /// Packages a request with a fresh single-use reply channel and hands it
    /// to the worker loop; the returned receiver carries exactly that call's
    /// reply. The only way this fails is with `WorkerStopped`: the worker's
    /// receive endpoint is already closed, so no reply will ever come.
    pub fn submit(&self, req: Request) -> (r: Result<oneshot::Receiver<Reply>, Error>)
        ensures
            r matches Err(e) ==> e == Error::WorkerStopped,
    {
        let (reply_tx, reply_rx) = new_reply_channel();
        if send_request(&self.tx, PendingCall { req, reply: reply_tx }) {
            Ok(reply_rx)
        } else {
            Err(Error::WorkerStopped)
        }
    }

    /// Records with the given samples: sends `Request::Record` and blocks the
    /// calling operation until the worker's reply arrives. Captured audio is
    /// not returned yet. Every channel failure surfaces as `WorkerStopped`;
    /// a worker-reported error is passed through unchanged.
    pub fn record(&self, data: &[i32]) -> Result<(), Error> {
        match self.submit(Request::Record(slice_to_vec(data))) {
            Err(e) => Err(e),
            Ok(rx) => finish_record(rx),
        }
    }

    /// Plays the given samples back, with the same request/reply shape and
    /// failure mapping as `record`.
    pub fn playback(&self, data: &[i32]) -> Result<(), Error> {
        match self.submit(Request::Playback(slice_to_vec(data))) {
            Err(e) => Err(e),
            Ok(rx) => finish_playback(rx),
        }
    }

    /// Asks the worker for the input device names, with the same
    /// request/reply shape and failure mapping as `record`.
    pub fn get_input_devices(&self) -> Result<Vec<String>, Error> {
        match self.submit(Request::GetInputDevices) {
            Err(e) => Err(e),
            Ok(rx) => finish_input_devices(rx),
        }
    }

    /// Asks the worker for the output device names, with the same
    /// request/reply shape and failure mapping as `record`.
    pub fn get_output_devices(&self) -> Result<Vec<String>, Error> {
        match self.submit(Request::GetOutputDevices) {
            Err(e) => Err(e),
            Ok(rx) => finish_output_devices(rx),
        }
    }
}

/// Law: a `Record` call succeeds exactly on the one reply that the protocol
/// owes it; no reply meant for another operation can make it report success,
/// so a delivered reply can never be mistaken for another call's.
pub proof fn lemma_record_accepts_only_record(reply: Reply)
    ensures
        record_outcome(reply) == Ok::<(), Error>(()) <==> reply == Ok::<Response, Error>(
            Response::Record,
        ),
{
}

/// Law: an operation reports success only on a reply carrying the one
/// response variant that the protocol owes it. A reply produced for any
/// other operation can therefore never be mistaken for this one's success,
/// whichever reply channel it might have travelled on.
pub proof fn lemma_success_only_on_matching_response(reply: Reply)
    ensures
        record_outcome(reply) is Ok <==> (reply matches Ok(resp) && resp is Record),
        playback_outcome(reply) is Ok <==> (reply matches Ok(resp) && resp is Playback),
        input_devices_outcome(reply) is Ok <==> (reply matches Ok(resp)
            && resp is GetInputDevices),
        output_devices_outcome(reply) is Ok <==> (reply matches Ok(resp)
            && resp is GetOutputDevices),
{
}

/// Law: each operation's round trip through a live worker is determined by
/// its own request alone — a `Record` call is acknowledged with success, and
/// an operation whose backend is not implemented yet reports
/// `NotImplemented` instead of stalling or aborting.
pub proof fn lemma_round_trip(req: Request)
    ensures
        req is Record ==> record_outcome(worker_reply(req)) == Ok::<(), Error>(()),
        req is Playback ==> playback_outcome(worker_reply(req)) == Err::<(), Error>(
            Error::NotImplemented,
        ),
        req is GetInputDevices ==> input_devices_outcome(worker_reply(req)) == Err::<
            Vec<String>,
            Error,
        >(Error::NotImplemented),
        req is GetOutputDevices ==> output_devices_outcome(worker_reply(req)) == Err::<
            Vec<String>,
            Error,
        >(Error::NotImplemented),
{
}

} // verus!
