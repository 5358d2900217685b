//! Verified core of an event-sourcing framework for a gRPC event store.

pub mod proto;
pub mod client;
pub mod json;
pub mod ids;
pub mod command;
pub mod event;
pub mod status;
pub mod paths;
pub mod storage;
pub mod snapshot;
pub mod projection;
pub mod process_manager;
pub mod store;
pub mod error;
pub mod actor;
pub mod auth;

pub use actor::{ActorAction, ActorEvent, Aggregate, CommandExecution, ExecPhase, ExecStep, RecordedDomainEvent, MAX_RETRIES};
pub use auth::bearer_header_value;
pub use client::{ExpectedVersionArg, to_proto_event};
pub use command::{CommandContext, CommandEnvelope};
pub use error::{ExecuteError, StateError};
pub use event::{EventMetadata, ProposedEventData, StoredEvent, decode_stored_event, encode_domain_event, stream_uuid};
pub use process_manager::{ProcessManager, ProcessManagerCheckpoint, ProcessManagerReport};
pub use projection::{Projection, ProjectionCheckpoint};
pub use snapshot::{Snapshot, snapshot_path};
pub use storage::StreamLayout;
pub use store::{DispatchOutcome, DispatchTable, InjectOptions, Route, TypedDispatcher};
