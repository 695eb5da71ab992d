use vstd::prelude::*;

use crate::text::str_eq;

verus! {

/// The category an event content type is declared to belong to.
///
/// The last three are real protocol categories that cannot be given to a content type through
/// a schema: a schema naming one of them is rejected.
#[derive(Clone, Copy, Debug, PartialEq, Eq, Structural)]
pub enum EventKind {
    GlobalAccountData,
    RoomAccountData,
    EphemeralRoomData,
    Message,
    State,
    ToDevice,
    Redaction,
    Presence,
    Decrypted,
}

/// The category exposed by a compiled type's static descriptor; message and state
/// content record whether the type is the redacted counterpart.
#[derive(Clone, Copy, Debug, PartialEq, Eq, Structural)]
pub enum ContentKind {
    GlobalAccountData,
    RoomAccountData,
    EphemeralRoomData,
    Message { redacted: bool },
    State { redacted: bool },
    ToDevice,
}

/// The capability tag a compiled type carries for its category.
#[derive(Clone, Copy, Debug, PartialEq, Eq, Structural)]
pub enum MarkerTrait {
    GlobalAccountDataEventContent,
    RoomAccountDataEventContent,
    EphemeralRoomEventContent,
    MessageEventContent,
    StateEventContent,
    ToDeviceEventContent,
    RedactedMessageEventContent,
    RedactedStateEventContent,
}

impl EventKind {
    /// Whether a schema may declare this category.
    pub open spec fn is_derivable(self) -> bool {
        !(self is Redaction || self is Presence || self is Decrypted)
    }

    /// Whether content of this category gets a generated redacted counterpart.
    pub open spec fn is_redactable(self) -> bool {
        self is Message || self is State
    }

    /// The category of the static descriptor for a derivable kind.
    pub open spec fn spec_content_kind(self, redacted: bool) -> Option<ContentKind> {
        match self {
            EventKind::GlobalAccountData => Some(ContentKind::GlobalAccountData),
            EventKind::RoomAccountData => Some(ContentKind::RoomAccountData),
            EventKind::EphemeralRoomData => Some(ContentKind::EphemeralRoomData),
            EventKind::Message => Some(ContentKind::Message { redacted }),
            EventKind::State => Some(ContentKind::State { redacted }),
            EventKind::ToDevice => Some(ContentKind::ToDevice),
            _ => None,
        }
    }

    /// The category marker of an unredacted type of a derivable kind.
    pub open spec fn spec_marker(self) -> Option<MarkerTrait> {
        match self {
            EventKind::GlobalAccountData => Some(MarkerTrait::GlobalAccountDataEventContent),
            EventKind::RoomAccountData => Some(MarkerTrait::RoomAccountDataEventContent),
            EventKind::EphemeralRoomData => Some(MarkerTrait::EphemeralRoomEventContent),
            EventKind::Message => Some(MarkerTrait::MessageEventContent),
            EventKind::State => Some(MarkerTrait::StateEventContent),
            EventKind::ToDevice => Some(MarkerTrait::ToDeviceEventContent),
            _ => None,
        }
    }

    /// The category marker of the generated redacted counterpart.
    pub open spec fn spec_redacted_marker(self) -> Option<MarkerTrait> {
        match self {
            EventKind::Message => Some(MarkerTrait::RedactedMessageEventContent),
            EventKind::State => Some(MarkerTrait::RedactedStateEventContent),
            _ => None,
        }
    }

    /// The kind named by a category token of a schema, if the token names one.
    pub open spec fn spec_from_token(t: Seq<char>) -> Option<EventKind> {
        if t == "GlobalAccountData"@ {
            Some(EventKind::GlobalAccountData)
        } else if t == "RoomAccountData"@ {
            Some(EventKind::RoomAccountData)
        } else if t == "EphemeralRoom"@ {
            Some(EventKind::EphemeralRoomData)
        } else if t == "Message"@ {
            Some(EventKind::Message)
        } else if t == "State"@ {
            Some(EventKind::State)
        } else if t == "ToDevice"@ {
            Some(EventKind::ToDevice)
        } else if t == "Redaction"@ {
            Some(EventKind::Redaction)
        } else if t == "Presence"@ {
            Some(EventKind::Presence)
        } else if t == "Decrypted"@ {
            Some(EventKind::Decrypted)
        } else {
            None
        }
    }

    /// Reads a category token (`Message`, `State`, ...).
    pub fn from_token(t: &str) -> (r: Option<EventKind>)
        ensures
            r == Self::spec_from_token(t@),
    {
        if str_eq(t, "GlobalAccountData") {
            Some(EventKind::GlobalAccountData)
        } else if str_eq(t, "RoomAccountData") {
            Some(EventKind::RoomAccountData)
        } else if str_eq(t, "EphemeralRoom") {
            Some(EventKind::EphemeralRoomData)
        } else if str_eq(t, "Message") {
            Some(EventKind::Message)
        } else if str_eq(t, "State") {
            Some(EventKind::State)
        } else if str_eq(t, "ToDevice") {
            Some(EventKind::ToDevice)
        } else if str_eq(t, "Redaction") {
            Some(EventKind::Redaction)
        } else if str_eq(t, "Presence") {
            Some(EventKind::Presence)
        } else if str_eq(t, "Decrypted") {
            Some(EventKind::Decrypted)
        } else {
            None
        }
    }

    /// Whether a schema may declare this category.
    pub fn derivable(self) -> (r: bool)
        ensures
            r == self.is_derivable(),
    {
        match self {
            EventKind::Redaction | EventKind::Presence | EventKind::Decrypted => false,
            _ => true,
        }
    }

    /// Whether content of this category gets a generated redacted counterpart.
    pub fn redactable(self) -> (r: bool)
        ensures
            r == self.is_redactable(),
    {
        match self {
            EventKind::Message | EventKind::State => true,
            _ => false,
        }
    }

    /// The static descriptor's category; `None` for a kind no schema may declare.
    pub fn content_kind(self, redacted: bool) -> (r: Option<ContentKind>)
        ensures
            r == self.spec_content_kind(redacted),
            r is Some <==> self.is_derivable(),
    {
        match self {
            EventKind::GlobalAccountData => Some(ContentKind::GlobalAccountData),
            EventKind::RoomAccountData => Some(ContentKind::RoomAccountData),
            EventKind::EphemeralRoomData => Some(ContentKind::EphemeralRoomData),
            EventKind::Message => Some(ContentKind::Message { redacted }),
            EventKind::State => Some(ContentKind::State { redacted }),
            EventKind::ToDevice => Some(ContentKind::ToDevice),
            EventKind::Redaction | EventKind::Presence | EventKind::Decrypted => None,
        }
    }

    /// The category marker of an unredacted type; `None` for a kind no schema may declare.
    pub fn marker(self) -> (r: Option<MarkerTrait>)
        ensures
            r == self.spec_marker(),
            r is Some <==> self.is_derivable(),
    {
        match self {
            EventKind::GlobalAccountData => Some(MarkerTrait::GlobalAccountDataEventContent),
            EventKind::RoomAccountData => Some(MarkerTrait::RoomAccountDataEventContent),
            EventKind::EphemeralRoomData => Some(MarkerTrait::EphemeralRoomEventContent),
            EventKind::Message => Some(MarkerTrait::MessageEventContent),
            EventKind::State => Some(MarkerTrait::StateEventContent),
            EventKind::ToDevice => Some(MarkerTrait::ToDeviceEventContent),
            EventKind::Redaction | EventKind::Presence | EventKind::Decrypted => None,
        }
    }

    /// The category marker of a generated redacted counterpart.
    pub fn redacted_marker(self) -> (r: Option<MarkerTrait>)
        ensures
            r == self.spec_redacted_marker(),
            r is Some <==> self.is_redactable(),
    {
        match self {
            EventKind::Message => Some(MarkerTrait::RedactedMessageEventContent),
            EventKind::State => Some(MarkerTrait::RedactedStateEventContent),
            _ => None,
        }
    }
}

} // verus!
