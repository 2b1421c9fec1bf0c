//! The closed set of output formats and what each one implies: a file
//! extension, an optional forced codec, and whether a user-supplied quality
//! value is honoured.

use vstd::prelude::*;

verus! {

/// The target container/codec families a batch can convert to.
#[derive(Clone, Copy, PartialEq, Eq, Structural, Debug)]
pub enum OutputFormat {
    Mp3,
    Wav,
    Aac,
    Ogg,
    Flac,
    M4a,
    Mp4,
}

/// The file extension (without the dot) that a format's output files carry.
pub open spec fn spec_extension(f: OutputFormat) -> Seq<char> {
    match f {
        OutputFormat::Mp3 => "mp3"@,
        OutputFormat::Wav => "wav"@,
        OutputFormat::Aac => "aac"@,
        OutputFormat::Ogg => "ogg"@,
        OutputFormat::Flac => "flac"@,
        OutputFormat::M4a => "m4a"@,
        OutputFormat::Mp4 => "mp4"@,
    }
}

/// Whether the format accepts a variable-bitrate quality flag.
pub open spec fn spec_vbr_quality(f: OutputFormat) -> bool {
    f == OutputFormat::Mp3 || f == OutputFormat::Ogg
}

/// Whether the format accepts a compression-level flag instead of a
/// quality flag.
pub open spec fn spec_compression_level(f: OutputFormat) -> bool {
    f == OutputFormat::Flac
}

impl OutputFormat {
    /// The file extension used for this format's output paths.
    pub fn extension(&self) -> (r: &'static str)
        ensures
            r@ == spec_extension(*self),
    {
        match self {
            OutputFormat::Mp3 => "mp3",
            OutputFormat::Wav => "wav",
            OutputFormat::Aac => "aac",
            OutputFormat::Ogg => "ogg",
            OutputFormat::Flac => "flac",
            OutputFormat::M4a => "m4a",
            OutputFormat::Mp4 => "mp4",
        }
    }

    /// True when a `quality` option is mapped to the tool's
    /// variable-bitrate quality flag for this format.
    pub fn supports_vbr_quality(&self) -> (r: bool)
        ensures
            r == spec_vbr_quality(*self),
    {
        match self {
            OutputFormat::Mp3 | OutputFormat::Ogg => true,
            _ => false,
        }
    }

    /// True when a `quality` option is mapped to the tool's
    /// compression-level flag for this format.
    pub fn supports_compression_level(&self) -> (r: bool)
        ensures
            r == spec_compression_level(*self),
    {
        match self {
            OutputFormat::Flac => true,
            _ => false,
        }
    }
}

} // verus!
