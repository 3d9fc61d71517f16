use vstd::prelude::*;
use crate::channel::PendingCall;
use crate::channel::recv_request;
use crate::channel::send_reply;
use crate::messages::Error;
use crate::messages::Reply;
use crate::messages::Request;
use crate::messages::Response;
use crate::messages::response_matches;

verus! {

/// The reply the worker loop owes for each request: a `Record` request is
/// acknowledged immediately with `Response::Record` (no hardware is touched
/// yet), and every operation without a backend implementation is answered
/// with `Error::NotImplemented` through the normal reply path rather than by
/// aborting the loop.
pub open spec fn worker_reply(req: Request) -> Reply {
    match req {
        Request::Record(_) => Ok(Response::Record),
        _ => Err(Error::NotImplemented),
    }
}

/// Computes the worker loop's reply to one request.
pub fn dispatch(req: Request) -> (reply: Reply)
    ensures
        reply == worker_reply(req),
{
    match req {
        Request::Record(_) => Ok(Response::Record),
        Request::Playback(_) => Err(Error::NotImplemented),
        Request::GetInputDevices => Err(Error::NotImplemented),
        Request::GetOutputDevices => Err(Error::NotImplemented),
    }
}

/// Law: the worker loop never answers a request with a response of a
/// mismatched variant; whenever its reply carries a response at all, that
/// response is the one corresponding to the request.
pub proof fn lemma_worker_reply_matches(req: Request)
    ensures
        worker_reply(req) matches Ok(resp) ==> response_matches(req, resp),
{
}

/// The worker loop's state: the receive end of the request channel. The
/// backend device handles would live here once a real capture or playback
/// path exists; no operation touches hardware yet.
pub struct Worker {
    pub(crate) rx: flume::Receiver<PendingCall>,
}

impl Worker {
    /// One turn of the worker loop: waits for the next pending call and
    /// answers it on that call's own reply channel. Reports `false` once the
    /// request channel is severed (every bridge handle dropped and no request
    /// left), which is the loop's only normal termination signal; the thread
    /// driving the loop then stops with the terminal result of `exit`. If the
    /// caller has already discarded its reply receiver, the answer is quietly
    /// dropped and the loop carries on.
    pub fn serve_one(&self) -> bool {
        match recv_request(&self.rx) {
            None => false,
            Some(call) => {
                let PendingCall { req, reply } = call;
                send_reply(reply, dispatch(req));
                true
            },
        }
    }

    /// The worker loop's terminal result once `serve_one` has reported that
    /// the request channel is severed: that is normal termination, never an
    /// error.
    pub fn exit(self) -> (r: Result<(), Error>)
        ensures
            r == Ok::<(), Error>(()),
    {
        Ok(())
    }
}

} // verus!
