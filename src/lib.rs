//! Long-poll synchronisation engine of an IRC to Matrix bridge, with the
//! per-connection context and task bookkeeping that every bridge runs under.

pub mod context;
pub mod endpoint;
pub mod payload;
pub mod query;
pub mod sync;

pub use context::{
    end_of_task, listen_address, ConnectionContext, TaskContext, TaskEnd, DEFAULT_LISTEN_ADDR,
    DEFAULT_MATRIX_URL, IRC_SERVER_NAME,
};
pub use endpoint::{BaseUrl, BaseUrlError};
pub use payload::{decode_sync_payload, SyncPayload, MISSING_NEXT_BATCH};
pub use query::{build_sync_target, PRESENCE_FILTER, SYNC_PATH};
pub use sync::{
    MatrixSyncClient, SyncError, SyncModel, SyncPhase, SyncPoll, SyncRequest, TransportPoll,
    WireResponse,
};
