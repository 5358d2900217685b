//! Errors of command execution and state reads, with their messages.

use vstd::prelude::*;
use crate::status::is_display_of;

verus! {

/// Error returned when executing a command against an aggregate fails.
///
/// Generic over `E`, the domain error type of the aggregate's command
/// handler.
#[derive(Debug)]
pub enum ExecuteError<E> {
    /// Command rejected by aggregate logic.
    Domain(E),
    /// Optimistic concurrency retries exhausted.
    WrongExpectedVersion,
    /// Disk I/O or encoding failure.
    Io(std::io::Error),
    /// gRPC transport or server error.
    Transport(tonic::Status),
    /// The actor that owns the aggregate is no longer running.
    ActorGone,
}

/// Error returned when reading the current state of an aggregate fails.
#[derive(Debug)]
pub enum StateError {
    /// Disk I/O failure.
    Io(std::io::Error),
    /// gRPC transport or server error.
    Transport(tonic::Status),
    /// The actor that owns the aggregate is no longer running.
    ActorGone,
}

/// Whether `message` is `prefix` followed by what `value`'s `Display` writes.
pub open spec fn is_prefixed_display<T: std::fmt::Display>(prefix: Seq<char>, value: T, message: Seq<char>) -> bool {
    exists|shown: String| #[trigger] is_display_of(value, shown) && message == prefix + shown@
}

/// Message of an I/O failure.
pub open spec fn io_prefix() -> Seq<char> {
    "I/O error: "@
}

/// Message of a transport failure.
pub open spec fn transport_prefix() -> Seq<char> {
    "gRPC transport error: "@
}

/// Message of retries running out.
pub open spec fn wrong_expected_version_message() -> Seq<char> {
    "wrong expected version: retries exhausted"@
}

/// Message of a stopped actor.
pub open spec fn actor_gone_message() -> Seq<char> {
    "aggregate actor is no longer running"@
}

/// `prefix` followed by what `value`'s `Display` writes.
fn prefixed<T: std::fmt::Display>(prefix: &str, value: &T) -> (r: String)
    ensures
        is_prefixed_display(prefix@, *value, r@),
{
    let mut out = String::from_str(prefix);
    let shown = value.to_string();
    out.append(shown.as_str());
    assert(is_display_of(*value, shown));
    out
}

impl<E: std::fmt::Display> ExecuteError<E> {
    /// The error's message: the domain error's own text, or the text of the
    /// failure that stopped the execution.
    pub fn message(&self) -> (r: String)
        ensures
            match self {
                ExecuteError::Domain(e) => is_display_of(*e, r),
                ExecuteError::WrongExpectedVersion => r@ == wrong_expected_version_message(),
                ExecuteError::Io(e) => is_prefixed_display(io_prefix(), *e, r@),
                ExecuteError::Transport(s) => is_prefixed_display(transport_prefix(), *s, r@),
                ExecuteError::ActorGone => r@ == actor_gone_message(),
            },
    {
        proof {
            reveal_strlit("I/O error: ");
            reveal_strlit("gRPC transport error: ");
            reveal_strlit("wrong expected version: retries exhausted");
            reveal_strlit("aggregate actor is no longer running");
        }
        match self {
            ExecuteError::Domain(e) => e.to_string(),
            ExecuteError::WrongExpectedVersion => String::from_str("wrong expected version: retries exhausted"),
            ExecuteError::Io(e) => prefixed("I/O error: ", e),
            ExecuteError::Transport(s) => prefixed("gRPC transport error: ", s),
            ExecuteError::ActorGone => String::from_str("aggregate actor is no longer running"),
        }
    }
}

impl StateError {
    /// The error's message: the text of the failure that stopped the read.
    pub fn message(&self) -> (r: String)
        ensures
            match self {
                StateError::Io(e) => is_prefixed_display(io_prefix(), *e, r@),
                StateError::Transport(s) => is_prefixed_display(transport_prefix(), *s, r@),
                StateError::ActorGone => r@ == actor_gone_message(),
            },
    {
        proof {
            reveal_strlit("I/O error: ");
            reveal_strlit("gRPC transport error: ");
            reveal_strlit("aggregate actor is no longer running");
        }
        match self {
            StateError::Io(e) => prefixed("I/O error: ", e),
            StateError::Transport(s) => prefixed("gRPC transport error: ", s),
            StateError::ActorGone => String::from_str("aggregate actor is no longer running"),
        }
    }
}

impl<E> From<std::io::Error> for ExecuteError<E> {
    /// An I/O failure.
    fn from(e: std::io::Error) -> (r: Self) {
        ExecuteError::Io(e)
    }
}

impl<E> vstd::std_specs::convert::FromSpecImpl<std::io::Error> for ExecuteError<E> {
    open spec fn obeys_from_spec() -> bool {
        true
    }

    open spec fn from_spec(e: std::io::Error) -> Self {
        ExecuteError::Io(e)
    }
}

impl From<std::io::Error> for StateError {
    /// An I/O failure.
    fn from(e: std::io::Error) -> (r: Self) {
        StateError::Io(e)
    }
}

impl vstd::std_specs::convert::FromSpecImpl<std::io::Error> for StateError {
    open spec fn obeys_from_spec() -> bool {
        true
    }

    open spec fn from_spec(e: std::io::Error) -> Self {
        StateError::Io(e)
    }
}

} // verus!
