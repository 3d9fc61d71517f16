//! A request/response bridge between a foreground thread and a dedicated
//! audio worker thread.
//!
//! A [`Bridged`] handle lives on the caller's side and turns each operation
//! into a [`Request`] paired with a fresh single-use reply channel; the
//! [`Worker`] owns the other end of the request channel and serves requests
//! one at a time, answering each on its own reply channel.

use vstd::prelude::*;

mod bridge;
mod channel;
mod messages;
mod worker;

verus! {

pub use crate::bridge::Bridged;
pub use crate::bridge::bridged;
pub use crate::bridge::finish_input_devices;
pub use crate::bridge::finish_output_devices;
pub use crate::bridge::finish_playback;
pub use crate::bridge::finish_record;
pub use crate::bridge::input_devices_outcome;
pub use crate::bridge::interpret_input_devices_reply;
pub use crate::bridge::interpret_output_devices_reply;
pub use crate::bridge::interpret_playback_reply;
pub use crate::bridge::interpret_record_reply;
pub use crate::bridge::lemma_record_accepts_only_record;
pub use crate::bridge::lemma_round_trip;
pub use crate::bridge::lemma_success_only_on_matching_response;
pub use crate::bridge::output_devices_outcome;
pub use crate::bridge::playback_outcome;
pub use crate::bridge::record_outcome;
pub use crate::channel::PendingCall;
pub use crate::messages::Error;
pub use crate::messages::Reply;
pub use crate::messages::Request;
pub use crate::messages::Response;
pub use crate::messages::response_matches;
pub use crate::worker::Worker;
pub use crate::worker::dispatch;
pub use crate::worker::lemma_worker_reply_matches;
pub use crate::worker::worker_reply;

} // verus!
