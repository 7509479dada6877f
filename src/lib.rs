//! A UDP DNS relay: each client query goes through a pluggable handler and,
//! when the handler declines, is forwarded upstream under a rewritten
//! transaction id; the upstream reply is translated back to the client.

pub mod endpoint;
pub mod handler;
pub mod id_range;
pub mod pending;
pub mod wire;
pub mod worker;

pub use endpoint::Endpoint;
pub use handler::{CustomHandler, EmptyHandler, HandlerOutcome};
pub use id_range::{calculate_id_range, IdRange};
pub use pending::{PendingQuery, PendingStore};
pub use worker::{Outgoing, Step, Worker, WorkerState};
