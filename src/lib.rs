//! Cross-process shared memory segments.
//!
//! The library decides everything about a segment's life that does not need
//! the operating system: how a configuration is built and validated, which
//! identifier or file path a segment gets, when a failed attempt is retried,
//! who owns the segment, and what teardown must undo. The system calls that
//! reserve, map and release the memory are performed by the caller with the
//! values these functions hand out.
pub mod conf;
pub mod error;
pub mod ident;
pub mod laws;
pub mod segment;

pub use conf::{
    ConfModel, LinkWrite, OpenSource, OpenStep, ShmemConf, ShmemConfExt, DEFAULT_MODE, OPEN_RETRIES,
    OPEN_RETRY_DELAY_MS,
};
pub use error::ShmemError;
pub use segment::{
    create_failure, link_create_failure, mapping_size, MapData, MapModel, Release, Shmem, ShmemModel,
    Teardown,
};
pub use ident::{hex_upper_string, join_path, prefixed_name};

