use conv2jxl::attempt::{
    first_quality, retry_quality, Attempt, Event, Next, Request, Stage, Verdict,
};
use conv2jxl::cli::{Conv2JxlArgs, FileType, Ratio};
use conv2jxl::encoder::{encoder_args, encoder_program};
use conv2jxl::outcome::{ConversionOutcome, FileEntry, Metadata};

fn item(path: &str, ext: FileType, len: u64, times: bool) -> FileEntry {
    let t = if times { Some(7) } else { None };
    FileEntry::new(path.to_string(), ext, Metadata { len, created: t, modified: t, accessed: t })
}

fn failed(text: &str) -> Event {
    Event::Failed(text.to_string())
}

/// Feeds the reports to a fresh attempt one after the other and returns what
/// the last of them leads to, with the requests made on the way.
fn play(
    args: &Conv2JxlArgs,
    item: &FileEntry,
    quality: u8,
    second: bool,
    reports: Vec<Event>,
) -> (Next, Vec<Request>) {
    let mut attempt = Attempt::begin(args, item, quality, second);
    let mut requests = vec![attempt.request()];
    let count = reports.len();
    for (i, report) in reports.into_iter().enumerate() {
        match attempt.advance(args, item, report) {
            Next::Perform(next) => {
                requests.push(next.request());
                attempt = next;
            }
            finished => {
                assert_eq!(i + 1, count, "the attempt ended early");
                return (finished, requests);
            }
        }
    }
    (Next::Perform(attempt), requests)
}

fn error_of(next: Next) -> String {
    match next {
        Next::Finished(Verdict::Outcome(ConversionOutcome::Error(message))) => message,
        other => panic!("no error: {other:?}"),
    }
}

fn ran_well() -> Event {
    Event::Ran { success: true, status: "exit status: 0".to_string(), stderr: String::new() }
}

#[test]
fn plain_attempt_asks_for_each_step_in_turn() {
    let args = Conv2JxlArgs::default();
    let png = item("a.png", FileType::PNG, 1000, false);
    let (end, requests) = play(
        &args,
        &png,
        100,
        false,
        vec![Event::Exists(false), ran_well(), Event::Succeeded, Event::Size(700)],
    );
    assert!(matches!(
        end,
        Next::Finished(Verdict::Outcome(ConversionOutcome::Success(1000, 700)))
    ));
    assert_eq!(
        requests,
        vec![Request::CheckOutput, Request::Encode, Request::OpenOutput, Request::StatOutput]
    );
}

#[test]
fn full_attempt_probes_reformats_copies_times_and_truncates() {
    let mut args = Conv2JxlArgs::default();
    args.min_width = 1;
    args.truncate = true;
    args.delete = true;
    let bmp = item("a.bmp", FileType::BMP, 1000, true);
    let (end, requests) = play(
        &args,
        &bmp,
        100,
        false,
        vec![
            Event::Exists(false),
            Event::Dimensions(5, 5),
            Event::Succeeded,
            ran_well(),
            Event::Succeeded,
            Event::Size(1000),
            Event::Succeeded,
            Event::Succeeded,
            Event::Succeeded,
        ],
    );
    assert!(matches!(
        end,
        Next::Finished(Verdict::Outcome(ConversionOutcome::Success(1000, 1000)))
    ));
    assert_eq!(
        requests,
        vec![
            Request::CheckOutput,
            Request::Probe,
            Request::Reformat,
            Request::Encode,
            Request::OpenOutput,
            Request::StatOutput,
            Request::SetTimes,
            Request::TruncateSource,
            Request::SetSourceTimes,
        ]
    );
}

#[test]
fn delete_is_asked_for_only_without_truncate() {
    let mut args = Conv2JxlArgs::default();
    args.delete = true;
    let png = item("a.png", FileType::PNG, 1000, false);
    let reports =
        || vec![Event::Exists(false), ran_well(), Event::Succeeded, Event::Size(10)];
    let (_, requests) = play(&args, &png, 100, false, reports());
    assert_eq!(requests.last(), Some(&Request::DeleteSource));
    args.truncate = true;
    let (_, requests) = play(&args, &png, 100, false, reports());
    assert_eq!(requests.last(), Some(&Request::TruncateSource));
    let mut both = reports();
    both.push(Event::Succeeded);
    let (end, _) = play(&args, &png, 100, false, both);
    assert!(matches!(end, Next::Finished(Verdict::Outcome(ConversionOutcome::Success(1000, 10)))));
}

#[test]
fn source_is_left_alone_when_the_output_replaces_it() {
    let mut args = Conv2JxlArgs::default();
    args.delete = true;
    args.no_preserve_extension = true;
    args.overwrite = true;
    let jxl = item("dir/a.jxl", FileType::JXL, 1000, false);
    assert_eq!(jxl.output_path(true), "dir/a.jxl");
    let (end, requests) = play(
        &args,
        &jxl,
        100,
        false,
        vec![Event::Exists(true), ran_well(), Event::Succeeded, Event::Size(10)],
    );
    assert!(matches!(end, Next::Finished(Verdict::Outcome(ConversionOutcome::Success(1000, 10)))));
    assert!(!requests.contains(&Request::DeleteSource));
}

#[test]
fn each_failure_has_its_message() {
    let args = Conv2JxlArgs::default();
    let mut bounded = Conv2JxlArgs::default();
    bounded.max_width = 100;
    let png = item("a.png", FileType::PNG, 1000, false);
    let tga = item("a.tga", FileType::TGA, 1000, false);
    let upto_stat = || vec![Event::Exists(false), ran_well(), Event::Succeeded];

    let (end, _) = play(&bounded, &png, 100, false, vec![Event::Exists(false), failed("x")]);
    assert_eq!(error_of(end), "Failed to read image dimensions.");

    let (end, _) = play(&args, &tga, 100, false, vec![Event::Exists(false), failed("bad header")]);
    assert_eq!(error_of(end), "Failed to convert image to PNG: bad header");

    let (end, _) = play(&args, &png, 100, false, vec![Event::Exists(false), failed("not found")]);
    assert_eq!(error_of(end), "Failed to execute conversion command: not found");

    let ran = Event::Ran {
        success: false,
        status: "exit status: 2".to_string(),
        stderr: "  \n bad input \t\n".to_string(),
    };
    let (end, _) = play(&args, &png, 100, false, vec![Event::Exists(false), ran]);
    assert_eq!(error_of(end), "Conversion command failed with exit status: 2: bad input");

    let (end, _) =
        play(&args, &png, 100, false, vec![Event::Exists(false), ran_well(), failed("denied")]);
    assert_eq!(error_of(end), "Failed to open converted file for verification.");

    let mut reports = upto_stat();
    reports.extend([failed("io"), Event::Succeeded]);
    let (end, requests) = play(&args, &png, 100, false, reports);
    assert_eq!(
        error_of(end),
        "Failed to get metadata for converted file. The output file has been deleted."
    );
    assert_eq!(requests.last(), Some(&Request::RemoveOutput));

    let mut reports = upto_stat();
    reports.extend([failed("io"), failed("busy")]);
    let (end, _) = play(&args, &png, 100, false, reports);
    assert_eq!(
        error_of(end),
        "Failed to get metadata for converted file and also failed to delete corrupted file: busy"
    );

    let mut reports = upto_stat();
    reports.extend([Event::Size(0), Event::Succeeded]);
    let (end, requests) = play(&args, &png, 100, false, reports);
    assert_eq!(
        error_of(end),
        "Conversion produced an empty file. The empty file has been deleted."
    );
    assert_eq!(requests.last(), Some(&Request::RemoveOutput));

    let mut reports = upto_stat();
    reports.extend([Event::Size(0), failed("busy")]);
    let (end, _) = play(&args, &png, 100, false, reports);
    assert_eq!(error_of(end), "Conversion produced an empty file, and failed to delete it: busy");

    let mut reports = upto_stat();
    reports.extend([Event::Size(1001), failed("busy")]);
    let (end, _) = play(&args, &png, 100, false, reports);
    assert_eq!(
        error_of(end),
        "Converted file is larger than the original 'png', and failed to delete it: busy."
    );
}

#[test]
fn encoder_message_is_trimmed_of_white_space_only() {
    let args = Conv2JxlArgs::default();
    let png = item("a.png", FileType::PNG, 1000, false);
    let message = |stderr: &str| {
        let ran = Event::Ran {
            success: false,
            status: "1".to_string(),
            stderr: stderr.to_string(),
        };
        error_of(play(&args, &png, 100, false, vec![Event::Exists(false), ran]).0)
    };
    assert_eq!(message("bad input"), "Conversion command failed with 1: bad input");
    assert_eq!(message("\t\n\u{b}\u{c}\r bad input \u{85}\u{a0}"), "Conversion command failed with 1: bad input");
    assert_eq!(
        message("\u{1680}\u{2000}\u{200a}\u{2028}\u{2029}\u{202f}\u{205f}\u{3000}x\u{2005}"),
        "Conversion command failed with 1: x"
    );
    assert_eq!(message(" \u{200b}x\u{feff} "), "Conversion command failed with 1: \u{200b}x\u{feff}");
    assert_eq!(message("\u{1c}x\u{180e}"), "Conversion command failed with 1: \u{1c}x\u{180e}");
    assert_eq!(message("  \n "), "Conversion command failed with 1: ");
    assert_eq!(message(""), "Conversion command failed with 1: ");
}

#[test]
fn rejected_output_is_removed_before_the_verdict() {
    let args = Conv2JxlArgs::default();
    let png = item("a.png", FileType::PNG, 1000, false);
    let (end, requests) = play(
        &args,
        &png,
        100,
        false,
        vec![Event::Exists(false), ran_well(), Event::Succeeded, Event::Size(1001), Event::Succeeded],
    );
    assert!(matches!(end, Next::Finished(Verdict::Rejected(1001))));
    assert_eq!(requests.last(), Some(&Request::RemoveOutput));
}

#[test]
fn shortfalls_after_the_conversion_become_warnings() {
    let mut args = Conv2JxlArgs::default();
    let png = item("a.png", FileType::PNG, 1000, true);
    let warning = |args: &Conv2JxlArgs, second: bool, tail: Vec<Event>| {
        let mut reports =
            vec![Event::Exists(false), ran_well(), Event::Succeeded, Event::Size(500)];
        reports.extend(tail);
        match play(args, &png, 100, second, reports).0 {
            Next::Finished(Verdict::Outcome(ConversionOutcome::Warning(1000, 500, w))) => w,
            other => panic!("no warning: {other:?}"),
        }
    };
    assert_eq!(warning(&args, false, vec![failed("ro")]), "Failed to set file times: ro");
    for second in [false, true] {
        let reports = vec![
            Event::Exists(false),
            ran_well(),
            Event::Succeeded,
            Event::Size(500),
            Event::Succeeded,
        ];
        assert!(matches!(
            play(&args, &png, 100, second, reports).0,
            Next::Finished(Verdict::Outcome(ConversionOutcome::Success(1000, 500)))
        ));
    }
    assert_eq!(warning(&args, true, vec![failed("ro")]), "Failed to set file times: ro");
    args.delete = true;
    assert_eq!(
        warning(&args, false, vec![Event::Succeeded, failed("locked")]),
        "Failed to delete source file: locked"
    );
    assert_eq!(
        warning(&args, false, vec![failed("ro"), failed("locked")]),
        "Failed to delete source file: locked"
    );
    assert_eq!(
        warning(&args, false, vec![failed("ro"), Event::Succeeded]),
        "Failed to set file times: ro"
    );
    args.truncate = true;
    assert_eq!(
        warning(&args, false, vec![Event::Succeeded, failed("locked")]),
        "Failed to open source file for truncation: locked"
    );
    assert_eq!(
        warning(&args, false, vec![Event::Succeeded, Event::Succeeded, failed("ro")]),
        "Failed to set file times on truncated source file: ro"
    );
}

#[test]
fn stages_know_their_requests_and_answers() {
    assert_eq!(Stage::RemoveEmpty.request(), Request::RemoveOutput);
    assert_eq!(Stage::RemoveUnreadable.request(), Request::RemoveOutput);
    assert_eq!(Stage::RemoveInefficient.request(), Request::RemoveOutput);
    assert_eq!(Stage::Encode.request(), Request::Encode);
    assert!(Stage::CheckOutput.answered_by(&Event::Exists(true)));
    assert!(!Stage::CheckOutput.answered_by(&Event::Succeeded));
    assert!(!Stage::CheckOutput.answered_by(&failed("x")));
    assert!(Stage::Probe.answered_by(&Event::Dimensions(1, 1)));
    assert!(Stage::Probe.answered_by(&failed("x")));
    assert!(!Stage::Probe.answered_by(&Event::Size(1)));
    assert!(Stage::Encode.answered_by(&ran_well()));
    assert!(!Stage::Encode.answered_by(&Event::Succeeded));
    assert!(Stage::StatOutput.answered_by(&Event::Size(1)));
    assert!(!Stage::StatOutput.answered_by(&Event::Succeeded));
    assert!(Stage::SetTimes.answered_by(&Event::Succeeded));
    assert!(!Stage::SetTimes.answered_by(&Event::Exists(true)));
}

#[test]
fn retry_policy_follows_the_options() {
    let mut args = Conv2JxlArgs::default();
    args.quality = 90;
    args.lossless_jpeg = true;
    let png = item("a.png", FileType::PNG, 500, false);
    let jpg = item("a.jpg", FileType::JPEG, 500, false);
    assert_eq!(first_quality(&args, FileType::PNG), 90);
    assert_eq!(first_quality(&args, FileType::JPEG), 100);
    assert_eq!(retry_quality(&args, &png, 90, false), None);
    args.quality_if_inefficient = Some(70);
    assert_eq!(retry_quality(&args, &png, 90, false), Some(70));
    assert_eq!(retry_quality(&args, &png, 90, true), None);
    assert_eq!(retry_quality(&args, &png, 70, false), None);
    assert_eq!(retry_quality(&args, &png, 71, false), Some(70));
    assert_eq!(retry_quality(&args, &jpg, 100, false), None);
    args.min_inefficient_size = Some(500);
    assert_eq!(retry_quality(&args, &png, 90, false), Some(70));
    args.min_inefficient_size = Some(501);
    assert_eq!(retry_quality(&args, &png, 90, false), None);
    args.lossless_jpeg = false;
    args.min_inefficient_size = None;
    assert_eq!(first_quality(&args, FileType::JPEG), 90);
    assert_eq!(retry_quality(&args, &jpg, 90, false), Some(70));
}

#[test]
fn output_path_replaces_or_extends_the_extension() {
    let png = item("dir/photo.png", FileType::PNG, 1, false);
    assert_eq!(png.output_path(false), "dir/photo.png.jxl");
    assert_eq!(png.output_path(true), "dir/photo.jxl");
    let jpg = item("dir/photo.JPG", FileType::JPEG, 1, false);
    assert_eq!(jpg.output_path(false), "dir/photo.jpeg.jxl");
    let bare = item("dir/photo", FileType::GIF, 1, false);
    assert_eq!(bare.output_path(false), "dir/photo.gif.jxl");
    assert_eq!(bare.output_path(true), "dir/photo.jxl");
}

#[test]
fn encoder_command_line_lists_every_option() {
    let mut args = Conv2JxlArgs::default();
    args.effort = 7;
    args.threads = -1;
    args.lossless_jpeg = false;
    assert_eq!(encoder_program(), "cjxl");
    assert_eq!(
        encoder_args("in.png", "out.jxl", 85, &args),
        vec![
            "in.png",
            "out.jxl",
            "-q",
            "85",
            "-e",
            "7",
            "--num_threads",
            "-1",
            "--lossless_jpeg",
            "0",
            "--quiet"
        ]
    );
    args.threads = 16;
    args.lossless_jpeg = true;
    args.disable_jpeg_reconstruction = true;
    args.effort = 10;
    assert_eq!(
        encoder_args("a", "b", 100, &args),
        vec![
            "a",
            "b",
            "-q",
            "100",
            "-e",
            "10",
            "--num_threads",
            "16",
            "--lossless_jpeg",
            "1",
            "--quiet",
            "--allow_expert_options",
            "--allow_jpeg_reconstruction",
            "0"
        ]
    );
    args.threads = i32::MIN;
    assert_eq!(encoder_args("a", "b", 0, &args)[7], "-2147483648");
    assert_eq!(encoder_args("a", "b", 0, &args)[3], "0");
    args.threads = i32::MAX;
    assert_eq!(encoder_args("a", "b", 255, &args)[7], "2147483647");
    assert_eq!(encoder_args("a", "b", 255, &args)[3], "255");
}

#[test]
fn attempt_notes_whether_the_output_replaces_the_source() {
    let png = item("dir/a.png", FileType::PNG, 1, false);
    let same = Attempt::begin_at(&png, 80, true, "dir/a.png");
    assert!(same.in_place);
    assert!(same.second);
    assert_eq!(same.quality, 80);
    assert_eq!(same.stage, Stage::CheckOutput);
    assert_eq!(same.request(), Request::CheckOutput);
    assert_eq!(same.warning, None);
    let other = Attempt::begin_at(&png, 80, false, "dir/a.png.jxl");
    assert!(!other.in_place);
    assert!(Attempt::begin_at(&png, 80, false, "dir//a.png").in_place);
    assert!(Attempt::begin_at(&png, 80, false, "dir/./a.png").in_place);
    assert!(!Attempt::begin_at(&png, 80, false, "dir/A.png").in_place);
    assert!(!Attempt::begin_at(&png, 80, false, "a.png").in_place);
    assert!(!Attempt::begin(&Conv2JxlArgs::default(), &png, 100, false).in_place);
}

#[test]
fn ratio_is_compared_without_rounding() {
    let third = Ratio { num: 1, den: 3 };
    assert!(!third.exceeded_by(1, 3));
    assert!(third.exceeded_by(2, 3));
    assert!(!third.exceeded_by(333, 1000));
    assert!(third.exceeded_by(334, 1000));
    let none = Ratio { num: 0, den: 1 };
    assert!(none.exceeded_by(1, u64::MAX));
    assert!(!none.exceeded_by(0, 5));
    let any = Ratio { num: 5, den: 0 };
    assert!(!any.exceeded_by(u64::MAX, 1));
    assert_eq!(Ratio::one(), Ratio { num: 1, den: 1 });
}
