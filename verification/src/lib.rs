//! Batch audio/video conversion library.
//!
//! The library drives an external transcoding tool over an ordered batch of
//! input files: it maps typed conversion options to the tool's argument list,
//! derives collision-free output paths, sequences one tool invocation per
//! file while tolerating per-file failures, and records a structured
//! progress-event stream for a presentation layer to consume.  All process
//! and file-system work is left to the caller; the library itself is pure
//! and verified.

pub mod args;
pub mod batch;
pub mod format;
pub mod options;
pub mod path;
pub mod probe;
pub mod progress;
pub mod text;

pub use args::build_args;
pub use batch::{Batch, FileStep};
pub use format::OutputFormat;
pub use options::ConversionOptions;
pub use path::{resolve_output, PathError};
pub use probe::{probe_report, ProbeOutcome};
pub use progress::{ConversionProgress, Status};
