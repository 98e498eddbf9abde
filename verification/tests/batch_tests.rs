use compressr::batch::{
    clamp_workers, combined_errors, run_batch, run_job, should_delete_original, success_count,
    BatchParams, BatchReport, FileOutcome, Job,
};
use compressr::errors::ErrorKind;
use compressr::format::OutputFormat;

fn solid_png_bytes(w: u32, h: u32) -> Vec<u8> {
    let img = image::RgbaImage::from_pixel(w, h, image::Rgba([10, 200, 60, 255]));
    let mut cur = std::io::Cursor::new(Vec::new());
    image::DynamicImage::ImageRgba8(img)
        .write_to(&mut cur, image::ImageFormat::Png)
        .unwrap();
    cur.into_inner()
}

fn dir_params(format: OutputFormat) -> BatchParams {
    BatchParams {
        output_target: String::from("out"),
        output_is_dir: true,
        scale: 100,
        width: None,
        height: None,
        quality: 90,
        format,
        delete_original: false,
    }
}

#[test]
fn worker_count_is_clamped_to_the_number_of_files() {
    let jobs: Vec<Job> = (0..3)
        .map(|i| Job { input: format!("in/img{i}.png"), data: solid_png_bytes(8, 8) })
        .collect();
    let report = run_batch(jobs, &dir_params(OutputFormat::Jpeg), 1000).unwrap();
    assert_eq!(report.workers, 3);
    assert_eq!(report.outcomes.len(), 3);
    assert_eq!(success_count(&report), 3);
}

#[test]
fn clamp_is_the_minimum() {
    assert_eq!(clamp_workers(1000, 3), 3);
    assert_eq!(clamp_workers(2, 3), 2);
    assert_eq!(clamp_workers(3, 3), 3);
    assert_eq!(clamp_workers(7, 0), 0);
}

#[test]
fn one_corrupt_file_does_not_disturb_the_others() {
    let mut jobs: Vec<Job> = Vec::new();
    for i in 1..=5 {
        let data = if i == 3 {
            b"corrupt bytes, not an image".to_vec()
        } else {
            solid_png_bytes(10 + i, 10)
        };
        jobs.push(Job { input: format!("in/file{i}.png"), data });
    }
    let report = run_batch(jobs, &dir_params(OutputFormat::Png), 4).unwrap();
    assert_eq!(report.outcomes.len(), 5);
    assert_eq!(success_count(&report), 4);

    for (idx, outcome) in report.outcomes.iter().enumerate() {
        match outcome {
            FileOutcome::Success { input, output_path, data } => {
                assert_ne!(idx, 2);
                assert_eq!(input, &format!("in/file{}.png", idx + 1));
                assert_eq!(output_path, &format!("out/file{}_compressed.png", idx + 1));
                let decoded = image::load_from_memory(data).unwrap();
                assert_eq!(decoded.width(), 10 + (idx as u32) + 1);
            }
            FileOutcome::Failure { input, kind, .. } => {
                assert_eq!(idx, 2);
                assert_eq!(input, "in/file3.png");
                assert_eq!(*kind, ErrorKind::DecodeError);
            }
        }
    }

    let log = combined_errors(&report);
    assert!(log.starts_with("\nError processing in/file3.png: "));
    assert_eq!(log.matches("Error processing").count(), 1);
}

#[test]
fn empty_job_set_is_a_successful_empty_report() {
    let report = run_batch(Vec::new(), &dir_params(OutputFormat::Jpeg), 8).unwrap();
    assert_eq!(report.workers, 0);
    assert!(report.outcomes.is_empty());
    assert_eq!(success_count(&report), 0);
    assert_eq!(combined_errors(&report), "");
}

#[test]
fn single_file_to_explicit_output_path() {
    let jobs = vec![Job { input: String::from("a/pic.png"), data: solid_png_bytes(6, 6) }];
    let params = BatchParams {
        output_target: String::from("a/pic_small.jpg"),
        output_is_dir: false,
        ..dir_params(OutputFormat::Jpeg)
    };
    let report = run_batch(jobs, &params, 1).unwrap();
    assert_eq!(report.workers, 1);
    match &report.outcomes[0] {
        FileOutcome::Success { output_path, .. } => assert_eq!(output_path, "a/pic_small.jpg"),
        FileOutcome::Failure { .. } => panic!("expected success"),
    }
}

#[test]
fn empty_output_target_is_an_invalid_request() {
    let jobs = vec![Job { input: String::from("a.png"), data: solid_png_bytes(4, 4) }];
    let params = BatchParams { output_target: String::new(), ..dir_params(OutputFormat::Jpeg) };
    let err = run_batch(jobs, &params, 2).unwrap_err();
    assert_eq!(err.kind, ErrorKind::InvalidRequest);
}

#[test]
fn empty_input_path_in_a_job_is_an_invalid_request() {
    let jobs = vec![
        Job { input: String::from("a.png"), data: solid_png_bytes(4, 4) },
        Job { input: String::new(), data: solid_png_bytes(4, 4) },
    ];
    let err = run_batch(jobs, &dir_params(OutputFormat::Jpeg), 2).unwrap_err();
    assert_eq!(err.kind, ErrorKind::InvalidRequest);
}

#[test]
fn zero_threads_is_an_invalid_request() {
    let jobs = vec![Job { input: String::from("a.png"), data: solid_png_bytes(4, 4) }];
    let err = run_batch(jobs, &dir_params(OutputFormat::Jpeg), 0).unwrap_err();
    assert_eq!(err.kind, ErrorKind::InvalidRequest);
}

#[test]
fn quality_above_100_is_an_invalid_request() {
    let jobs = vec![Job { input: String::from("a.png"), data: solid_png_bytes(4, 4) }];
    let params = BatchParams { quality: 101, ..dir_params(OutputFormat::Jpeg) };
    let err = run_batch(jobs, &params, 2).unwrap_err();
    assert_eq!(err.kind, ErrorKind::InvalidRequest);
}

#[test]
fn several_files_into_one_output_file_is_an_invalid_request() {
    let jobs = vec![
        Job { input: String::from("a.png"), data: solid_png_bytes(4, 4) },
        Job { input: String::from("b.png"), data: solid_png_bytes(4, 4) },
    ];
    let params = BatchParams {
        output_target: String::from("single.jpg"),
        output_is_dir: false,
        ..dir_params(OutputFormat::Jpeg)
    };
    let err = run_batch(jobs, &params, 2).unwrap_err();
    assert_eq!(err.kind, ErrorKind::InvalidRequest);
}

#[test]
fn run_job_carries_the_input_name_on_failure() {
    let job = Job { input: String::from("bad.png"), data: b"nope".to_vec() };
    match run_job(&job, &dir_params(OutputFormat::Png)) {
        FileOutcome::Failure { input, kind, .. } => {
            assert_eq!(input, "bad.png");
            assert_eq!(kind, ErrorKind::DecodeError);
        }
        FileOutcome::Success { .. } => panic!("expected failure"),
    }
}

#[test]
fn deletion_only_after_success_and_only_when_requested() {
    let success = FileOutcome::Success {
        input: String::from("a.png"),
        output_path: String::from("out/a_compressed.jpg"),
        data: vec![1, 2, 3],
    };
    let failure = FileOutcome::Failure {
        input: String::from("a.png"),
        kind: ErrorKind::DecodeError,
        message: String::from("boom"),
    };
    assert!(should_delete_original(true, &success));
    assert!(!should_delete_original(true, &failure));
    assert!(!should_delete_original(false, &success));
    assert!(!should_delete_original(false, &failure));
}

#[test]
fn combined_errors_joins_lines_in_order() {
    let report = BatchReport {
        workers: 2,
        outcomes: vec![
            FileOutcome::Failure {
                input: String::from("a.png"),
                kind: ErrorKind::DecodeError,
                message: String::from("bad header"),
            },
            FileOutcome::Success {
                input: String::from("b.png"),
                output_path: String::from("out/b_compressed.jpg"),
                data: vec![0],
            },
            FileOutcome::Failure {
                input: String::from("c.png"),
                kind: ErrorKind::EncodeError,
                message: String::from("too large"),
            },
        ],
    };
    assert_eq!(
        combined_errors(&report),
        "\nError processing a.png: bad header\nError processing c.png: too large"
    );
    assert_eq!(success_count(&report), 1);
}
