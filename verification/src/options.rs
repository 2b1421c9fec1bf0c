//! Conversion options: the typed, per-batch settings that the argument
//! builder maps to the external tool's command line.

use vstd::prelude::*;
use crate::format::OutputFormat;

verus! {

/// Why a set of requested option values was rejected.
#[derive(Clone, Copy, PartialEq, Eq, Structural, Debug)]
pub enum OptionsError {
    /// A sample rate was requested but is not positive.
    ZeroSampleRate,
    /// A channel count was requested but is not positive.
    ZeroChannels,
}

/// Options for one batch.  Constructed once per batch request and shared
/// read-only across all of its files.
pub struct ConversionOptions {
    /// Target container/codec family.
    pub format: OutputFormat,
    /// Audio bitrate value (for the tool's bitrate flag), if requested.
    pub bitrate: Option<String>,
    /// Output sample rate in hertz, if requested.
    pub sample_rate: Option<u32>,
    /// Output channel count, if requested.
    pub channels: Option<u8>,
    /// Quality value; honoured only by formats with a quality or
    /// compression-level flag, silently dropped otherwise.
    pub quality: Option<String>,
}

impl ConversionOptions {
    /// Options that request a format and nothing else.
    pub fn new(format: OutputFormat) -> (r: ConversionOptions)
        ensures
            r.format == format,
            r.bitrate is None,
            r.sample_rate is None,
            r.channels is None,
            r.quality is None,
    {
        ConversionOptions {
            format,
            bitrate: None,
            sample_rate: None,
            channels: None,
            quality: None,
        }
    }

    /// Validated construction from loosely-structured user input: the
    /// numeric fields must be positive when present.  Performed once per
    /// batch request, not per file.
    pub fn validated(
        format: OutputFormat,
        bitrate: Option<String>,
        sample_rate: Option<u32>,
        channels: Option<u8>,
        quality: Option<String>,
    ) -> (r: Result<ConversionOptions, OptionsError>)
        ensures
            match r {
                Ok(o) => {
                    &&& sample_rate != Some(0u32)
                    &&& channels != Some(0u8)
                    &&& o == (ConversionOptions { format, bitrate, sample_rate, channels, quality })
                },
                Err(e) => {
                    &&& (e == OptionsError::ZeroSampleRate <==> sample_rate == Some(0u32))
                    &&& (e == OptionsError::ZeroChannels ==> channels == Some(0u8))
                },
            },
    {
        let zero_rate = match sample_rate {
            Some(s) => s == 0,
            None => false,
        };
        let zero_channels = match channels {
            Some(c) => c == 0,
            None => false,
        };
        if zero_rate {
            Err(OptionsError::ZeroSampleRate)
        } else if zero_channels {
            Err(OptionsError::ZeroChannels)
        } else {
            Ok(ConversionOptions { format, bitrate, sample_rate, channels, quality })
        }
    }
}

} // verus!
