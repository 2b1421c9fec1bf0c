//! Progress events: one structured record per status change, created fresh
//! for every emission, immutable once constructed, and consumed by whatever
//! listener the caller has registered.

use vstd::prelude::*;

verus! {

/// The status a progress event reports for one file.
#[derive(Clone, Copy, PartialEq, Eq, Structural, Debug)]
pub enum Status {
    /// Work on the file is starting.
    Converting,
    /// The file was converted; the event carries the output path.
    Done,
    /// The file was skipped or the tool failed; the event carries the
    /// error text.
    Error,
}

/// One progress event of a batch.
pub struct ConversionProgress {
    /// The input file the event is about.
    pub file_path: String,
    /// What the event reports.
    pub status: Status,
    /// The resolved output path; present exactly on `Done`.
    pub output_path: Option<String>,
    /// The error text; present exactly on `Error`.
    pub error: Option<String>,
    /// Zero-based position of the file in the batch.
    pub index: usize,
    /// The batch size, fixed at call start and identical in every event of
    /// one batch.
    pub total: usize,
    /// Size of the input file in bytes, when it was readable.
    pub input_size: Option<u64>,
    /// Size of the output file in bytes, when it was readable.
    pub output_size: Option<u64>,
}

/// The mathematical shape of a progress event.
pub struct ProgressModel {
    pub file_path: Seq<char>,
    pub status: Status,
    pub output_path: Option<Seq<char>>,
    pub error: Option<Seq<char>>,
    pub index: int,
    pub total: int,
    pub input_size: Option<u64>,
    pub output_size: Option<u64>,
}

/// The character sequence of an optional string.
pub open spec fn opt_str_view(o: Option<String>) -> Option<Seq<char>> {
    match o {
        Some(s) => Some(s@),
        None => None,
    }
}

impl View for ConversionProgress {
    type V = ProgressModel;

    open spec fn view(&self) -> ProgressModel {
        ProgressModel {
            file_path: self.file_path@,
            status: self.status,
            output_path: opt_str_view(self.output_path),
            error: opt_str_view(self.error),
            index: self.index as int,
            total: self.total as int,
            input_size: self.input_size,
            output_size: self.output_size,
        }
    }
}

} // verus!
