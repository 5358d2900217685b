//! Command metadata and the envelope used for cross-aggregate dispatch.

use vstd::prelude::*;

verus! {

/// Cross-cutting metadata passed alongside a command: audit identity,
/// correlation, arbitrary extra metadata and the originating device.
#[derive(Debug, Clone)]
pub struct CommandContext {
    /// Identity of the actor issuing the command (e.g. a user ID).
    pub actor: Option<String>,
    /// Correlation ID for tracing a request across aggregates.
    pub correlation_id: Option<String>,
    /// Arbitrary metadata forwarded with the command.
    pub metadata: Option<serde_json::Value>,
    /// The device ID of the client that issued the command.
    pub source_device: Option<String>,
}

impl Default for CommandContext {
    /// A context with no field set.
    fn default() -> (r: Self)
        ensures
            r.actor is None,
            r.correlation_id is None,
            r.metadata is None,
            r.source_device is None,
    {
        CommandContext { actor: None, correlation_id: None, metadata: None, source_device: None }
    }
}

/// The string that a conversion into `String` produces, where the source
/// type states it.
pub open spec fn converted<S: Into<String>>(s: S, r: String) -> bool {
    <S as vstd::std_specs::convert::IntoSpec<String>>::obeys_into_spec() ==> r == <S as vstd::std_specs::convert::IntoSpec<String>>::into_spec(s)
}

impl CommandContext {
    /// Set the actor identity; every other field is kept.
    pub fn with_actor<S: Into<String>>(self, actor: S) -> (r: Self)
        ensures
            r.actor matches Some(a) && converted(actor, a),
            r.correlation_id == self.correlation_id,
            r.metadata == self.metadata,
            r.source_device == self.source_device,
    {
        CommandContext { actor: Some(actor.into()), ..self }
    }

    /// Set the correlation ID; every other field is kept.
    pub fn with_correlation_id<S: Into<String>>(self, id: S) -> (r: Self)
        ensures
            r.actor == self.actor,
            r.correlation_id matches Some(c) && converted(id, c),
            r.metadata == self.metadata,
            r.source_device == self.source_device,
    {
        CommandContext { correlation_id: Some(id.into()), ..self }
    }

    /// Set the arbitrary metadata; every other field is kept.
    pub fn with_metadata(self, meta: serde_json::Value) -> (r: Self)
        ensures
            r.actor == self.actor,
            r.correlation_id == self.correlation_id,
            r.metadata == Some(meta),
            r.source_device == self.source_device,
    {
        CommandContext { metadata: Some(meta), ..self }
    }

    /// Set the source device ID; every other field is kept.
    pub fn with_source_device<S: Into<String>>(self, device_id: S) -> (r: Self)
        ensures
            r.actor == self.actor,
            r.correlation_id == self.correlation_id,
            r.metadata == self.metadata,
            r.source_device matches Some(d) && converted(device_id, d),
    {
        CommandContext { source_device: Some(device_id.into()), ..self }
    }
}

/// A type-erased command produced by a process manager: the target
/// aggregate, its JSON command and the context to run it with.
#[derive(Debug, Clone)]
pub struct CommandEnvelope {
    /// Target aggregate type name.
    pub aggregate_type: String,
    /// Target aggregate instance identifier.
    pub instance_id: String,
    /// JSON-serialized command payload.
    pub command: serde_json::Value,
    /// Cross-cutting metadata forwarded to the command handler.
    pub context: CommandContext,
}

impl CommandEnvelope {
    /// A copy of the envelope with every field equal.
    pub fn clone_envelope(&self) -> (r: Self)
        ensures
            r == *self,
    {
        CommandEnvelope {
            aggregate_type: self.aggregate_type.clone(),
            instance_id: self.instance_id.clone(),
            command: self.command.clone(),
            context: CommandContext {
                actor: self.context.actor.clone(),
                correlation_id: self.context.correlation_id.clone(),
                metadata: self.context.metadata.clone(),
                source_device: self.context.source_device.clone(),
            },
        }
    }
}

} // verus!
