use batchconv::args::build_args;
use batchconv::batch::{Batch, FileStep};
use batchconv::format::OutputFormat;
use batchconv::options::ConversionOptions;
use batchconv::path::PathError;
use batchconv::progress::Status;

fn strings(v: &[&str]) -> Vec<String> {
    v.iter().map(|s| s.to_string()).collect()
}

#[test]
fn batch_mixed_success_and_missing_file() {
    let inputs = strings(&["a.wav", "missing.wav", "b.wav"]);
    let mut batch = Batch::new(inputs, ConversionOptions::new(OutputFormat::Mp3));
    assert_eq!(batch.total(), 3);

    // a.wav exists; the tool succeeds.
    match batch.begin_file(true, Some(1000)) {
        FileStep::Run { output_path, .. } => assert_eq!(output_path, "a.mp3"),
        _ => panic!("expected a run step"),
    }
    batch.finish_file(true, String::new(), Some(400));

    // missing.wav does not exist; it is skipped.
    match batch.begin_file(false, None) {
        FileStep::Skipped => {},
        _ => panic!("expected a skip"),
    }

    // b.wav exists; the tool succeeds.
    match batch.begin_file(true, Some(2000)) {
        FileStep::Run { output_path, .. } => assert_eq!(output_path, "b.mp3"),
        _ => panic!("expected a run step"),
    }
    batch.finish_file(true, String::new(), Some(900));

    assert!(batch.is_complete());
    assert_eq!(batch.results(), &strings(&["a.mp3", "b.mp3"]));

    let events = batch.events();
    assert_eq!(events.len(), 6);
    for (k, e) in events.iter().enumerate() {
        assert_eq!(e.total, 3);
        assert_eq!(e.index, k / 2);
    }
    assert_eq!(events[0].status, Status::Converting);
    assert_eq!(events[0].file_path, "a.wav");
    assert_eq!(events[0].input_size, Some(1000));
    assert_eq!(events[1].status, Status::Done);
    assert_eq!(events[1].output_path.as_deref(), Some("a.mp3"));
    assert_eq!(events[1].input_size, Some(1000));
    assert_eq!(events[1].output_size, Some(400));
    assert_eq!(events[2].status, Status::Converting);
    assert_eq!(events[2].file_path, "missing.wav");
    assert_eq!(events[3].status, Status::Error);
    assert_eq!(events[3].error.as_deref(), Some("File not found: missing.wav"));
    assert_eq!(events[3].output_path, None);
    assert_eq!(events[4].status, Status::Converting);
    assert_eq!(events[4].file_path, "b.wav");
    assert_eq!(events[5].status, Status::Done);
    assert_eq!(events[5].output_path.as_deref(), Some("b.mp3"));
}

#[test]
fn batch_converting_events_count_and_order() {
    let inputs = strings(&["x.wav", "y.wav"]);
    let mut batch = Batch::new(inputs, ConversionOptions::new(OutputFormat::Ogg));
    for _ in 0..2 {
        match batch.begin_file(true, None) {
            FileStep::Run { .. } => batch.finish_file(true, String::new(), None),
            _ => panic!("expected a run step"),
        }
    }
    assert!(batch.is_complete());
    let converting: Vec<usize> = batch
        .events()
        .iter()
        .filter(|e| e.status == Status::Converting)
        .map(|e| e.index)
        .collect();
    assert_eq!(converting, vec![0, 1]);
}

#[test]
fn batch_tool_failure_continues_with_stderr_surfaced() {
    let inputs = strings(&["bad.wav", "good.wav"]);
    let mut batch = Batch::new(inputs, ConversionOptions::new(OutputFormat::Flac));

    match batch.begin_file(true, None) {
        FileStep::Run { .. } => {},
        _ => panic!("expected a run step"),
    }
    batch.finish_file(false, "corrupt header".to_string(), None);

    match batch.begin_file(true, None) {
        FileStep::Run { .. } => {},
        _ => panic!("expected a run step"),
    }
    batch.finish_file(true, String::new(), None);

    assert!(batch.is_complete());
    assert_eq!(batch.results(), &strings(&["good.flac"]));
    let events = batch.events();
    assert_eq!(events[1].status, Status::Error);
    assert_eq!(events[1].error.as_deref(), Some("corrupt header"));
    assert_eq!(events[3].status, Status::Done);
}

#[test]
fn batch_where_every_file_fails_still_completes_with_empty_list() {
    let inputs = strings(&["one.wav", "two.wav"]);
    let mut batch = Batch::new(inputs, ConversionOptions::new(OutputFormat::Aac));
    match batch.begin_file(false, None) {
        FileStep::Skipped => {},
        _ => panic!("expected a skip"),
    }
    match batch.begin_file(false, None) {
        FileStep::Skipped => {},
        _ => panic!("expected a skip"),
    }
    assert!(batch.is_complete());
    assert!(batch.results().is_empty());
    assert_eq!(batch.events().len(), 4);
}

#[test]
fn batch_empty_is_complete_immediately() {
    let batch = Batch::new(Vec::new(), ConversionOptions::new(OutputFormat::Wav));
    assert!(batch.is_complete());
    assert!(batch.results().is_empty());
    assert!(batch.events().is_empty());
}

#[test]
fn batch_path_error_aborts_remaining_batch() {
    let inputs = strings(&["music/", "fine.wav"]);
    let mut batch = Batch::new(inputs, ConversionOptions::new(OutputFormat::Mp3));
    match batch.begin_file(true, None) {
        FileStep::Fatal(e) => assert_eq!(e, PathError::NoStem),
        _ => panic!("expected a fatal path error"),
    }
    assert!(batch.is_aborted());
    assert!(!batch.is_complete());
    // The aborted file got its "converting" event but no terminal event.
    let events = batch.events();
    assert_eq!(events.len(), 1);
    assert_eq!(events[0].status, Status::Converting);
    assert!(batch.results().is_empty());
}

#[test]
fn batch_run_step_hands_out_builder_arguments() {
    let inputs = strings(&["take.wav"]);
    let opts = ConversionOptions {
        format: OutputFormat::Ogg,
        bitrate: Some("96k".to_string()),
        sample_rate: Some(22050),
        channels: Some(1),
        quality: None,
    };
    let expected = build_args("take.wav", "take.ogg", &opts);
    let mut batch = Batch::new(inputs, opts);
    match batch.begin_file(true, None) {
        FileStep::Run { args, output_path } => {
            assert_eq!(output_path, "take.ogg");
            assert_eq!(args, expected);
        },
        _ => panic!("expected a run step"),
    }
    batch.finish_file(true, String::new(), None);
    assert_eq!(batch.into_results(), strings(&["take.ogg"]));
}

#[test]
fn batch_collision_renames_output() {
    let inputs = strings(&["song.mp3"]);
    let mut batch = Batch::new(inputs, ConversionOptions::new(OutputFormat::Mp3));
    match batch.begin_file(true, None) {
        FileStep::Run { output_path, .. } => assert_eq!(output_path, "song_converted.mp3"),
        _ => panic!("expected a run step"),
    }
    batch.finish_file(true, String::new(), None);
    assert_eq!(batch.results(), &strings(&["song_converted.mp3"]));
}
