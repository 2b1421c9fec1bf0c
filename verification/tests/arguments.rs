use batchconv::args::build_args;
use batchconv::format::OutputFormat;
use batchconv::options::{ConversionOptions, OptionsError};

#[test]
fn args_minimal_mp3() {
    let opts = ConversionOptions::new(OutputFormat::Mp3);
    let args = build_args("a.wav", "a.mp3", &opts);
    assert_eq!(args, vec!["-i", "a.wav", "-y", "a.mp3"]);
}

#[test]
fn args_all_options_mp3() {
    let opts = ConversionOptions {
        format: OutputFormat::Mp3,
        bitrate: Some("192k".to_string()),
        sample_rate: Some(44100),
        channels: Some(2),
        quality: Some("2".to_string()),
    };
    let args = build_args("in.wav", "out.mp3", &opts);
    assert_eq!(
        args,
        vec![
            "-i", "in.wav", "-y", "-b:a", "192k", "-ar", "44100", "-ac", "2", "-q:a", "2",
            "out.mp3"
        ]
    );
}

#[test]
fn args_mp4_forces_aac_and_strips_video_and_drops_quality() {
    let opts = ConversionOptions {
        format: OutputFormat::Mp4,
        bitrate: None,
        sample_rate: None,
        channels: None,
        quality: Some("5".to_string()),
    };
    let args = build_args("clip.mov", "clip.mp4", &opts);
    assert_eq!(args, vec!["-i", "clip.mov", "-y", "-c:a", "aac", "-vn", "clip.mp4"]);
    assert!(!args.iter().any(|a| a == "-q:a"));
    assert!(!args.iter().any(|a| a == "-compression_level"));
    assert!(!args.iter().any(|a| a == "5"));
}

#[test]
fn args_flac_quality_becomes_compression_level() {
    let opts = ConversionOptions {
        format: OutputFormat::Flac,
        bitrate: None,
        sample_rate: None,
        channels: None,
        quality: Some("8".to_string()),
    };
    let args = build_args("x.wav", "x.flac", &opts);
    assert_eq!(args, vec!["-i", "x.wav", "-y", "-compression_level", "8", "x.flac"]);
}

#[test]
fn args_ogg_quality_and_vorbis() {
    let opts = ConversionOptions {
        format: OutputFormat::Ogg,
        bitrate: None,
        sample_rate: None,
        channels: None,
        quality: Some("6".to_string()),
    };
    let args = build_args("x.wav", "x.ogg", &opts);
    assert_eq!(args, vec!["-i", "x.wav", "-y", "-q:a", "6", "-c:a", "libvorbis", "x.ogg"]);
}

#[test]
fn args_aac_and_m4a_force_aac_codec() {
    let aac = build_args("x.wav", "x.aac", &ConversionOptions::new(OutputFormat::Aac));
    assert_eq!(aac, vec!["-i", "x.wav", "-y", "-c:a", "aac", "x.aac"]);
    let m4a = build_args("x.wav", "x.m4a", &ConversionOptions::new(OutputFormat::M4a));
    assert_eq!(m4a, vec!["-i", "x.wav", "-y", "-c:a", "aac", "x.m4a"]);
    assert!(!m4a.iter().any(|a| a == "-vn"));
}

#[test]
fn args_wav_quality_silently_dropped() {
    let opts = ConversionOptions {
        format: OutputFormat::Wav,
        bitrate: None,
        sample_rate: None,
        channels: None,
        quality: Some("3".to_string()),
    };
    let args = build_args("x.mp3", "x.wav", &opts);
    assert_eq!(args, vec!["-i", "x.mp3", "-y", "x.wav"]);
}

#[test]
fn args_builder_is_deterministic() {
    let opts = ConversionOptions {
        format: OutputFormat::Ogg,
        bitrate: Some("128k".to_string()),
        sample_rate: Some(48000),
        channels: Some(1),
        quality: Some("4".to_string()),
    };
    let first = build_args("in.wav", "out.ogg", &opts);
    let second = build_args("in.wav", "out.ogg", &opts);
    assert_eq!(first, second);
}

#[test]
fn validated_options_reject_zero_numerics() {
    let r = ConversionOptions::validated(OutputFormat::Mp3, None, Some(0), None, None);
    assert!(matches!(r, Err(OptionsError::ZeroSampleRate)));
    let r = ConversionOptions::validated(OutputFormat::Mp3, None, Some(44100), Some(0), None);
    assert!(matches!(r, Err(OptionsError::ZeroChannels)));
    let r = ConversionOptions::validated(
        OutputFormat::Mp3,
        Some("192k".to_string()),
        Some(44100),
        Some(2),
        None,
    );
    let opts = r.unwrap();
    assert_eq!(opts.sample_rate, Some(44100));
    assert_eq!(opts.channels, Some(2));
    assert_eq!(opts.bitrate.as_deref(), Some("192k"));
}

#[test]
fn args_output_path_is_always_last() {
    let opts = ConversionOptions {
        format: OutputFormat::Flac,
        bitrate: Some("320k".to_string()),
        sample_rate: None,
        channels: None,
        quality: None,
    };
    let args = build_args("a.ogg", "a.flac", &opts);
    assert_eq!(args.first().map(|s| s.as_str()), Some("-i"));
    assert_eq!(args.last().map(|s| s.as_str()), Some("a.flac"));
}
