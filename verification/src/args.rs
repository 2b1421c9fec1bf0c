//! The argument builder: a pure map from one input path, one output path and
//! a set of conversion options to the exact ordered argument list handed to
//! the external transcoding tool.  The tool is positional-argument
//! sensitive, so the order below is part of the contract.

use vstd::prelude::*;
use crate::format::{
    spec_compression_level, spec_extension, spec_vbr_quality, OutputFormat,
};
use crate::options::ConversionOptions;

verus! {

/// The character sequences of a list of argument strings.
pub open spec fn args_view(v: Seq<String>) -> Seq<Seq<char>> {
    v.map_values(|s: String| s@)
}

/// Arguments contributed by the bitrate option.
pub open spec fn spec_bitrate_args(opts: ConversionOptions) -> Seq<Seq<char>> {
    match opts.bitrate {
        Some(b) => seq!["-b:a"@, b@],
        None => Seq::empty(),
    }
}

/// Arguments contributed by the sample-rate option.
pub open spec fn spec_sample_rate_args(opts: ConversionOptions) -> Seq<Seq<char>> {
    match opts.sample_rate {
        Some(r) => seq!["-ar"@, crate::text::spec_decimal(r as int)],
        None => Seq::empty(),
    }
}

/// Arguments contributed by the channel-count option.
pub open spec fn spec_channel_args(opts: ConversionOptions) -> Seq<Seq<char>> {
    match opts.channels {
        Some(c) => seq!["-ac"@, crate::text::spec_decimal(c as int)],
        None => Seq::empty(),
    }
}

/// Arguments contributed by the quality option.  A quality value is mapped
/// to the variable-bitrate quality flag or the compression-level flag,
/// depending on the format, and silently dropped for formats with neither.
pub open spec fn spec_quality_args(opts: ConversionOptions) -> Seq<Seq<char>> {
    match opts.quality {
        Some(q) => if spec_vbr_quality(opts.format) {
            seq!["-q:a"@, q@]
        } else if spec_compression_level(opts.format) {
            seq!["-compression_level"@, q@]
        } else {
            Seq::empty()
        },
        None => Seq::empty(),
    }
}

/// Codec-forcing arguments implied by the format: an AAC family forces the
/// AAC codec, video containers additionally drop the video stream, and Ogg
/// forces Vorbis; the remaining formats use the container default.
pub open spec fn spec_codec_args(f: OutputFormat) -> Seq<Seq<char>> {
    match f {
        OutputFormat::Aac | OutputFormat::M4a => seq!["-c:a"@, "aac"@],
        OutputFormat::Mp4 => seq!["-c:a"@, "aac"@, "-vn"@],
        OutputFormat::Ogg => seq!["-c:a"@, "libvorbis"@],
        _ => Seq::empty(),
    }
}

/// The full ordered argument list for one invocation of the external tool:
/// input flag and path, unconditional overwrite flag, the optional numeric
/// and quality flags, the codec-forcing arguments, and the output path last.
pub open spec fn spec_build_args(
    input: Seq<char>,
    output: Seq<char>,
    opts: ConversionOptions,
) -> Seq<Seq<char>> {
    seq!["-i"@, input, "-y"@] + spec_bitrate_args(opts) + spec_sample_rate_args(opts)
        + spec_channel_args(opts) + spec_quality_args(opts) + spec_codec_args(opts.format)
        + seq![output]
}

/// Builds the ordered argument list for converting `input_path` to
/// `output_path` under `opts`.  Pure: the result is a function of the
/// arguments alone.
#[verifier::rlimit(60)]
pub fn build_args(input_path: &str, output_path: &str, opts: &ConversionOptions) -> (r: Vec<
    String,
>)
    ensures
        args_view(r@) == spec_build_args(input_path@, output_path@, *opts),
{
    let mut v: Vec<String> = Vec::new();
    v.push(String::from_str("-i"));
    v.push(String::from_str(input_path));
    v.push(String::from_str("-y"));
    let ghost done = seq!["-i"@, input_path@, "-y"@];
    assert(args_view(v@) =~= done);

    if let Some(b) = &opts.bitrate {
        v.push(String::from_str("-b:a"));
        v.push(b.clone());
    }
    let ghost done = done + spec_bitrate_args(*opts);
    assert(args_view(v@) =~= done);

    if let Some(r) = opts.sample_rate {
        v.push(String::from_str("-ar"));
        v.push(crate::text::u64_to_string(r as u64));
    }
    let ghost done = done + spec_sample_rate_args(*opts);
    assert(args_view(v@) =~= done);

    if let Some(c) = opts.channels {
        v.push(String::from_str("-ac"));
        v.push(crate::text::u64_to_string(c as u64));
    }
    let ghost done = done + spec_channel_args(*opts);
    assert(args_view(v@) =~= done);

    if let Some(q) = &opts.quality {
        if opts.format.supports_vbr_quality() {
            v.push(String::from_str("-q:a"));
            v.push(q.clone());
        } else if opts.format.supports_compression_level() {
            v.push(String::from_str("-compression_level"));
            v.push(q.clone());
        }
    }
    let ghost done = done + spec_quality_args(*opts);
    assert(args_view(v@) =~= done);

    match opts.format {
        OutputFormat::Aac | OutputFormat::M4a => {
            v.push(String::from_str("-c:a"));
            v.push(String::from_str("aac"));
        },
        OutputFormat::Mp4 => {
            v.push(String::from_str("-c:a"));
            v.push(String::from_str("aac"));
            v.push(String::from_str("-vn"));
        },
        OutputFormat::Ogg => {
            v.push(String::from_str("-c:a"));
            v.push(String::from_str("libvorbis"));
        },
        _ => {},
    }
    let ghost done = done + spec_codec_args(opts.format);
    assert(args_view(v@) =~= done);

    v.push(String::from_str(output_path));
    assert(args_view(v@) =~= spec_build_args(input_path@, output_path@, *opts));
    v
}

/// Law: the argument builder is a pure, deterministic function.  Two
/// argument lists built from identical inputs, outputs and options are
/// identical, element for element and in order.
pub proof fn lemma_build_args_deterministic(
    r1: Seq<Seq<char>>,
    r2: Seq<Seq<char>>,
    input: Seq<char>,
    output: Seq<char>,
    opts: ConversionOptions,
)
    requires
        r1 == spec_build_args(input, output, opts),
        r2 == spec_build_args(input, output, opts),
    ensures
        r1 == r2,
{
}

} // verus!
