use vstd::prelude::*;

verus! {

/// A command for the worker loop. Immutable once constructed; it is owned by
/// the request channel until the worker consumes it.
#[derive(Debug)]
pub enum Request {
    GetInputDevices,
    GetOutputDevices,
    Playback(Vec<i32>),
    Record(Vec<i32>),
}

/// The worker loop's answer to one `Request`. Each request variant has exactly
/// one corresponding response variant; see `response_matches`.
#[derive(Debug)]
pub enum Response {
    GetInputDevices(Vec<String>),
    GetOutputDevices(Vec<String>),
    Playback,
    Record,
}

/// Everything that a bridge operation can report.
#[derive(Debug)]
pub enum Error {
    /// The backend failed while enumerating or resolving audio devices; the
    /// message describes the failure.
    DevicesError(String),
    /// The worker loop is gone: its receive endpoint was closed before the
    /// request could be delivered, or it went away without replying.
    WorkerStopped,
    /// The requested operation has no backend implementation yet; the worker
    /// reports this through the normal reply path instead of aborting.
    NotImplemented,
}

/// What travels back on a reply channel: either a response or a worker-side error.
pub type Reply = Result<Response, Error>;

/// The request/response correspondence that the worker loop must respect: a
/// reply carrying a response of any other variant than the one matching the
/// request is a protocol violation.
pub open spec fn response_matches(req: Request, resp: Response) -> bool {
    match req {
        Request::GetInputDevices => resp is GetInputDevices,
        Request::GetOutputDevices => resp is GetOutputDevices,
        Request::Playback(_) => resp is Playback,
        Request::Record(_) => resp is Record,
    }
}

} // verus!
