//! Why a handler gives up on a frame or an event. No failure is fatal to the
//! process: each ends the current invocation only.

use vstd::prelude::*;
use vstd::string::StringExecFns;

verus! {

/// The classes of failure.
#[derive(Clone, Copy, Debug, PartialEq, Eq, Structural)]
pub enum FailureKind {
    /// A required component is absent from the store.
    NotFound,
    /// A stored value does not parse as the expected shape.
    DeserializeError,
    /// The transport refused a message.
    PublishFailure,
    /// A resource path or subject lacks the expected segments.
    MalformedIdentifier,
}

/// What went wrong.
#[derive(Clone, Copy, Debug, PartialEq, Eq, Structural)]
pub enum Failure {
    /// The resource that an extractor targets is not in the store.
    MissingTarget,
    /// The asteroid's transponder is not in the store.
    MissingTransponder,
    /// The stored radar receiver does not parse.
    UnreadableReceiver,
    /// The stored position does not parse.
    UnreadablePosition,
    /// The stored extractor does not parse.
    UnreadableExtractor,
    /// The stored resource does not parse.
    UnreadableResource,
    /// The stored transponder does not parse.
    UnreadableTransponder,
    /// A command could not be published.
    PublishFailed,
    /// An extractor's target has no fourth segment to name the asteroid.
    MalformedTarget,
    /// A position event's subject has no fifth segment to name the entity.
    MalformedSubject,
}

/// The class that each failure belongs to.
pub open spec fn spec_kind(failure: Failure) -> FailureKind {
    match failure {
        Failure::MissingTarget | Failure::MissingTransponder => FailureKind::NotFound,
        Failure::UnreadableReceiver
        | Failure::UnreadablePosition
        | Failure::UnreadableExtractor
        | Failure::UnreadableResource
        | Failure::UnreadableTransponder => FailureKind::DeserializeError,
        Failure::PublishFailed => FailureKind::PublishFailure,
        Failure::MalformedTarget | Failure::MalformedSubject => FailureKind::MalformedIdentifier,
    }
}

/// The text that each failure is reported with.
pub open spec fn spec_message(failure: Failure) -> Seq<char> {
    match failure {
        Failure::MissingTarget => "Resource mining target did not exist"@,
        Failure::MissingTransponder => "attempted to retrieve non-existent transponder"@,
        Failure::UnreadableReceiver => "unable to retrieve radar receiver"@,
        Failure::UnreadablePosition => "unable to retrieve position"@,
        Failure::UnreadableExtractor => "unable to retrieve extractor"@,
        Failure::UnreadableResource => "unable to retrieve mining resource"@,
        Failure::UnreadableTransponder => "unable to retrieve transponder"@,
        Failure::PublishFailed => "Error publishing message"@,
        Failure::MalformedTarget => "extractor target does not name an asteroid"@,
        Failure::MalformedSubject => "position subject does not name an entity"@,
    }
}

impl Failure {
    /// The class of this failure.
    pub fn kind(&self) -> (kind: FailureKind)
        ensures
            kind == spec_kind(*self),
    {
        match self {
            Failure::MissingTarget | Failure::MissingTransponder => FailureKind::NotFound,
            Failure::UnreadableReceiver
            | Failure::UnreadablePosition
            | Failure::UnreadableExtractor
            | Failure::UnreadableResource
            | Failure::UnreadableTransponder => FailureKind::DeserializeError,
            Failure::PublishFailed => FailureKind::PublishFailure,
            Failure::MalformedTarget | Failure::MalformedSubject => FailureKind::MalformedIdentifier,
        }
    }

    /// The text that this failure is reported with.
    pub fn message(&self) -> (text: String)
        ensures
            text@ == spec_message(*self),
    {
        match self {
            Failure::MissingTarget => String::from_str("Resource mining target did not exist"),
            Failure::MissingTransponder => String::from_str(
                "attempted to retrieve non-existent transponder",
            ),
            Failure::UnreadableReceiver => String::from_str("unable to retrieve radar receiver"),
            Failure::UnreadablePosition => String::from_str("unable to retrieve position"),
            Failure::UnreadableExtractor => String::from_str("unable to retrieve extractor"),
            Failure::UnreadableResource => String::from_str("unable to retrieve mining resource"),
            Failure::UnreadableTransponder => String::from_str("unable to retrieve transponder"),
            Failure::PublishFailed => String::from_str("Error publishing message"),
            Failure::MalformedTarget => String::from_str(
                "extractor target does not name an asteroid",
            ),
            Failure::MalformedSubject => String::from_str(
                "position subject does not name an entity",
            ),
        }
    }
}

} // verus!
