use rawdog::batch::{plan_batch, tally, BatchConfig, BatchError, BatchTally};
use rawdog::enumerate::{collect_arw_files, InputEntry};
use rawdog::format::OutputFormat;
use rawdog::outcome::{ConversionOutcome, Failure, Stage};
use rawdog::path::{Component, FilePath};

fn path(text: &str) -> FilePath {
    let mut components = Vec::new();
    if text.starts_with('/') {
        components.push(Component::Root);
    }
    for part in text.split('/').filter(|part| !part.is_empty()) {
        components.push(Component::Normal(part.to_string()));
    }
    FilePath { components }
}

fn config(output_dir: Option<&str>) -> BatchConfig {
    BatchConfig {
        output_dir: output_dir.map(path),
        format: OutputFormat::Jpeg,
        quality: 92,
        max_long_edge: Some(2000),
        overwrite: false,
    }
}

fn failed(stage: Stage) -> ConversionOutcome {
    ConversionOutcome::Failed(Failure { stage, message: "it broke".to_string() })
}

#[test]
fn directory_gives_its_raw_files() {
    let inputs = vec![InputEntry::Directory(vec![
        path("d/b.arw"),
        path("d/notes.txt"),
        path("d/a.ARW"),
        path("d/sub"),
        path("d/c.jpg"),
    ])];
    let found = collect_arw_files(inputs);
    assert_eq!(found.files, vec![path("d/a.ARW"), path("d/b.arw")]);
    assert!(found.missing.is_empty());
}

#[test]
fn nested_file_is_not_found() {
    // The listing of `d` holds `d/sub`, not what lies in it.
    let inputs = vec![InputEntry::Directory(vec![path("d/sub"), path("d/top.arw")])];
    let found = collect_arw_files(inputs);
    assert_eq!(found.files, vec![path("d/top.arw")]);
    assert!(!found.files.contains(&path("d/sub/deep.arw")));
}

#[test]
fn file_is_taken_whatever_its_name() {
    let inputs = vec![InputEntry::File(path("x/picture.dng")), InputEntry::File(path("a.arw"))];
    let found = collect_arw_files(inputs);
    assert_eq!(found.files, vec![path("a.arw"), path("x/picture.dng")]);
}

#[test]
fn missing_inputs_are_set_aside_in_their_order() {
    let inputs = vec![
        InputEntry::Missing(path("z/gone")),
        InputEntry::File(path("b.arw")),
        InputEntry::Missing(path("a/gone")),
    ];
    let found = collect_arw_files(inputs);
    assert_eq!(found.files, vec![path("b.arw")]);
    assert_eq!(found.missing, vec![path("z/gone"), path("a/gone")]);
}

#[test]
fn files_of_all_inputs_are_sorted_together() {
    let inputs = vec![
        InputEntry::Directory(vec![path("z/2.arw"), path("z/1.arw")]),
        InputEntry::File(path("m.arw")),
        InputEntry::Missing(path("nowhere")),
        InputEntry::Directory(vec![path("a/9.arw"), path("a/readme")]),
        InputEntry::Directory(vec![]),
        InputEntry::File(path("m.arw")),
    ];
    let found = collect_arw_files(inputs);
    assert_eq!(
        found.files,
        vec![path("a/9.arw"), path("m.arw"), path("m.arw"), path("z/1.arw"), path("z/2.arw")]
    );
    assert_eq!(found.missing, vec![path("nowhere")]);
}

#[test]
fn no_inputs_give_no_files() {
    let found = collect_arw_files(Vec::new());
    assert!(found.files.is_empty());
    assert!(found.missing.is_empty());
}

#[test]
fn empty_batch_is_an_error() {
    assert_eq!(plan_batch(Vec::new(), &config(None)), Err(BatchError::EmptyBatch));
    let found = collect_arw_files(vec![
        InputEntry::Missing(path("gone")),
        InputEntry::Directory(vec![path("d/notes.txt")]),
    ]);
    assert_eq!(plan_batch(found.files, &config(Some("out"))), Err(BatchError::EmptyBatch));
}

#[test]
fn every_file_gets_its_one_request() {
    let files = vec![path("a/1.arw"), path("a/2.ARW"), path("/b/3.arw")];
    let requests = plan_batch(files.clone(), &config(None)).expect("there are files");
    assert_eq!(requests.len(), 3);
    for (request, file) in requests.iter().zip(&files) {
        assert_eq!(&request.input, file);
        assert_eq!(request.format, OutputFormat::Jpeg);
        assert_eq!(request.quality, 92);
        assert_eq!(request.max_long_edge, Some(2000));
        assert!(!request.overwrite);
    }
    assert_eq!(requests[0].output, path("a/1.jpg"));
    assert_eq!(requests[1].output, path("a/2.jpg"));
    assert_eq!(requests[2].output, path("/b/3.jpg"));
}

#[test]
fn requests_go_to_the_output_directory() {
    let files = vec![path("a/1.arw"), path("/b/3.arw")];
    let requests = plan_batch(files, &config(Some("/out"))).expect("there are files");
    assert_eq!(requests[0].output, path("/out/1.jpg"));
    assert_eq!(requests[1].output, path("/out/3.jpg"));
}

#[test]
fn request_for_carries_the_settings() {
    let settings = BatchConfig {
        output_dir: None,
        format: OutputFormat::Tiff,
        quality: 1,
        max_long_edge: None,
        overwrite: true,
    };
    let request = settings.request_for(path("x/y.arw"));
    assert_eq!(request.input, path("x/y.arw"));
    assert_eq!(request.output, path("x/y.tiff"));
    assert_eq!(request.format, OutputFormat::Tiff);
    assert_eq!(request.quality, 1);
    assert_eq!(request.max_long_edge, None);
    assert!(request.overwrite);
}

#[test]
fn tally_counts_each_kind() {
    let outcomes = vec![
        ConversionOutcome::Success,
        failed(Stage::Decode),
        ConversionOutcome::Skipped,
        ConversionOutcome::Success,
        ConversionOutcome::Success,
        failed(Stage::Encode),
    ];
    assert_eq!(tally(&outcomes), BatchTally { succeeded: 3, failed: 2, skipped: 1 });
}

#[test]
fn one_failure_leaves_the_other_files_counted() {
    let outcomes =
        vec![ConversionOutcome::Success, failed(Stage::Decode), ConversionOutcome::Success];
    let counted = tally(&outcomes);
    assert_eq!(counted, BatchTally { succeeded: 2, failed: 1, skipped: 0 });
    assert_eq!(counted.succeeded + counted.failed + counted.skipped, outcomes.len());
}

#[test]
fn tally_of_nothing_is_zero() {
    assert_eq!(tally(&Vec::new()), BatchTally { succeeded: 0, failed: 0, skipped: 0 });
    assert_eq!(BatchTally::new(), BatchTally { succeeded: 0, failed: 0, skipped: 0 });
}

#[test]
fn record_adds_one_to_the_kind() {
    let mut counted = BatchTally::new();
    counted.record(&ConversionOutcome::Skipped);
    assert_eq!(counted, BatchTally { succeeded: 0, failed: 0, skipped: 1 });
    counted.record(&failed(Stage::Resize));
    assert_eq!(counted, BatchTally { succeeded: 0, failed: 1, skipped: 1 });
    counted.record(&ConversionOutcome::Success);
    assert_eq!(counted, BatchTally { succeeded: 1, failed: 1, skipped: 1 });
}

#[test]
fn tally_does_not_depend_on_the_order() {
    let one =
        vec![ConversionOutcome::Success, failed(Stage::Decode), ConversionOutcome::Skipped];
    let other =
        vec![ConversionOutcome::Skipped, ConversionOutcome::Success, failed(Stage::Decode)];
    assert_eq!(tally(&one), tally(&other));
}

#[test]
fn summary_is_the_tally_line() {
    let counted = BatchTally { succeeded: 3, failed: 2, skipped: 1 };
    assert_eq!(counted.summary(), "3 succeeded, 2 failed, 1 skipped");
    assert_eq!(BatchTally::new().summary(), "0 succeeded, 0 failed, 0 skipped");
}

#[test]
fn summary_writes_every_digit() {
    let counted = BatchTally { succeeded: 1_234_567_890, failed: 10, skipped: 909 };
    assert_eq!(counted.summary(), "1234567890 succeeded, 10 failed, 909 skipped");
    let counted = BatchTally { succeeded: usize::MAX, failed: 100, skipped: 9 };
    assert_eq!(counted.summary(), format!("{} succeeded, 100 failed, 9 skipped", usize::MAX));
}

#[test]
fn summary_of_a_tally_counts_the_files() {
    let outcomes =
        vec![ConversionOutcome::Success, failed(Stage::Decode), ConversionOutcome::Success];
    assert_eq!(tally(&outcomes).summary(), "2 succeeded, 1 failed, 0 skipped");
}

#[test]
fn empty_batch_has_its_message() {
    assert_eq!(BatchError::EmptyBatch.message(), "No ARW files found in the provided inputs.");
}
