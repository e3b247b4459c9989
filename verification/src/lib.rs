//! Intra-process transport for a parallel dataflow runtime.
//!
//! Every worker thread of a process gets, per channel id, one producer
//! endpoint towards each peer and one consumer endpoint of its own. The
//! endpoints of a channel are built once, by whichever worker asks first,
//! and parked in a shared table until each worker has collected its share.

pub mod bundle;
pub mod channel;
pub mod endpoint;
pub mod erased;
pub mod error;
pub mod lock;
pub mod tag;
pub mod thread;
pub mod process;
pub mod promise;
pub mod protocol;
pub mod registry;

pub use bundle::{bind, build_matrix, Allocation, BoundPuller, BoundPusher, Bundle};
pub use endpoint::{sub_channel, Pull, Puller, Push, Pusher};
pub use error::CommError;
pub use process::{
    allocate_in, built_in, found_or_corrupted, live_in, serve_found, Process, ProcessBuilder,
};
pub use registry::{Entry, EntryView, Registry};
pub use tag::TypeTag;
pub use thread::{Event, Thread, ThreadBuilder, Wait};
