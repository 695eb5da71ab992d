//! The request and response of the federation endpoint that submits a signed knock event to
//! a resident homeserver (`PUT /_matrix/federation/v1/send_knock/{roomId}/{eventId}`).

use vstd::prelude::*;

verus! {

/// A request to accept a knock event into a room's graph.
#[derive(Clone, Debug)]
pub struct Request<'a, M> {
    /// The room ID that should receive the knock.
    pub room_id: &'a str,
    /// The event ID for the knock event.
    pub event_id: &'a str,
    /// The full knock event.
    pub knock_event: &'a M,
}

/// The state events providing public room metadata.
#[derive(Clone, Debug)]
pub struct Response<S> {
    pub knock_room_state: Vec<S>,
}

impl<'a, M> Request<'a, M> {
    /// Creates a new `Request` with the given room ID, event ID and knock event.
    pub fn new(room_id: &'a str, event_id: &'a str, knock_event: &'a M) -> (r: Self)
        ensures
            r.room_id == room_id,
            r.event_id == event_id,
            r.knock_event == knock_event,
    {
        Request { room_id, event_id, knock_event }
    }
}

impl<S> Response<S> {
    /// Creates a new `Response` with the given public room metadata state events.
    pub fn new(knock_room_state: Vec<S>) -> (r: Self)
        ensures
            r.knock_room_state == knock_room_state,
    {
        Response { knock_room_state }
    }
}

} // verus!
