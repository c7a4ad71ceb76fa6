//! File-handle accounting and path utilities for scanning a process
//! filesystem: a bounded budget of concurrently open handles, a reusable
//! parent-relative path builder, a byte-oriented decimal decoder, and a
//! NUL-terminating path encoder.

pub mod budget;
pub mod codec;
pub mod path;

pub use budget::FileBudget;
pub use budget::FileCounter;
pub use codec::to_cpath;
pub use codec::to_u64;
pub use path::PathBuf;
pub use path::PathHandler;
pub use path::PathPush;
