//! Extra information about an event that is not incorporated into the event's hash.

use vstd::prelude::*;

verus! {

/// The largest magnitude an integer of the JSON wire format may have (2^53 - 1).
pub const MAX_SAFE_INT: i64 = 0x001F_FFFF_FFFF_FFFF;

/// Whether `v` is an integer that JSON represents exactly.
pub open spec fn is_safe_int(v: i64) -> bool {
    -MAX_SAFE_INT <= v <= MAX_SAFE_INT
}

/// Extra information about an event that is not incorporated into the event's hash.
#[derive(Clone, Debug)]
pub struct Unsigned {
    /// The time in milliseconds that has elapsed since the event was sent, as the local
    /// homeserver reckons it; it may be negative when clocks are out of sync.
    pub age: Option<i64>,
    /// The client-supplied transaction ID, if the client being given the event is the one
    /// which sent it.
    pub transaction_id: Option<String>,
}

/// Extra information about a redacted event that is not incorporated into the event's hash.
#[derive(Clone, Debug)]
pub struct RedactedUnsigned<E> {
    /// The event that redacted this event, if any.
    pub redacted_because: Option<Box<E>>,
}

/// Unsigned data as some servers send it, with the previous content of a state event.
#[derive(Clone, Debug)]
pub struct UnsignedWithPrevContent {
    pub age: Option<i64>,
    pub transaction_id: Option<String>,
    /// The previous content, as raw JSON text.
    pub prev_content: Option<String>,
}

/// Redacted unsigned data as some servers send it, with the previous content of a state
/// event.
#[derive(Clone, Debug)]
pub struct RedactedUnsignedWithPrevContent<E> {
    pub redacted_because: Option<Box<E>>,
    /// The previous content, as raw JSON text.
    pub prev_content: Option<String>,
}

impl Unsigned {
    /// The age, if any, is an integer JSON represents exactly.
    pub open spec fn wf(&self) -> bool {
        self.age matches Some(a) ==> is_safe_int(a)
    }

    /// Creates a new `Unsigned` with fields set to `None`.
    pub fn new() -> (r: Self)
        ensures
            r.age is None,
            r.transaction_id is None,
            r.wf(),
    {
        Unsigned { age: None, transaction_id: None }
    }

    /// Whether this unsigned data is empty (all fields are `None`).
    ///
    /// Used to decide whether to skip serializing the `unsigned` field of room events; an
    /// incoming `unsigned` field may have been present and still hold none of these.
    pub fn is_empty(&self) -> (r: bool)
        ensures
            r == (self.age is None && self.transaction_id is None),
    {
        self.age.is_none() && self.transaction_id.is_none()
    }
}

impl<E> RedactedUnsigned<E> {
    /// Creates a new `RedactedUnsigned` with field set to `None`.
    pub fn new() -> (r: Self)
        ensures
            r.redacted_because is None,
    {
        RedactedUnsigned { redacted_because: None }
    }

    /// Creates a new `RedactedUnsigned` with the given redacted because.
    pub fn new_because(redacted_because: Box<E>) -> (r: Self)
        ensures
            r.redacted_because == Some(redacted_because),
    {
        RedactedUnsigned { redacted_because: Some(redacted_because) }
    }

    /// Whether this unsigned data is empty (`redacted_because` is `None`).
    ///
    /// Used to decide whether to skip serializing the `unsigned` field of redacted room
    /// events.
    pub fn is_empty(&self) -> (r: bool)
        ensures
            r == (self.redacted_because is None),
    {
        self.redacted_because.is_none()
    }
}

impl From<UnsignedWithPrevContent> for Unsigned {
    /// Drops the previous content.
    fn from(u: UnsignedWithPrevContent) -> (r: Self) {
        Unsigned { age: u.age, transaction_id: u.transaction_id }
    }
}

impl vstd::std_specs::convert::FromSpecImpl<UnsignedWithPrevContent> for Unsigned {
    open spec fn obeys_from_spec() -> bool {
        true
    }

    open spec fn from_spec(u: UnsignedWithPrevContent) -> Unsigned {
        Unsigned { age: u.age, transaction_id: u.transaction_id }
    }
}

impl<E> From<RedactedUnsignedWithPrevContent<E>> for RedactedUnsigned<E> {
    /// Drops the previous content.
    fn from(u: RedactedUnsignedWithPrevContent<E>) -> (r: Self) {
        RedactedUnsigned { redacted_because: u.redacted_because }
    }
}

impl<E> vstd::std_specs::convert::FromSpecImpl<RedactedUnsignedWithPrevContent<E>> for RedactedUnsigned<E> {
    open spec fn obeys_from_spec() -> bool {
        true
    }

    open spec fn from_spec(u: RedactedUnsignedWithPrevContent<E>) -> RedactedUnsigned<E> {
        RedactedUnsigned { redacted_because: u.redacted_because }
    }
}

} // verus!
