use conv2jxl::attempt::{Event, Request};
use conv2jxl::cli::{Conv2JxlArgs, FileType, PerFileType};
use conv2jxl::convert::{ConversionState, SharedState, Step};
use conv2jxl::outcome::{ConversionOutcome, FileEntry, Metadata};
use conv2jxl::progress::{collect_stats, ConversionProgress};

fn entry(name: &str, ext: FileType, len: u64) -> FileEntry {
    FileEntry::new(
        name.to_string(),
        ext,
        Metadata { len, created: None, modified: None, accessed: None },
    )
}

/// Takes worker `w` through one file: claim at `t0`, start at `t0`, then the
/// encoder leaves `output` bytes and the outcome is recorded at `t1`.
fn convert(state: &mut SharedState, w: usize, t0: u64, t1: u64, output: u64) {
    assert_eq!(state.next(w, Event::Succeeded, t0), Step::Poll);
    assert_eq!(state.next(w, Event::Succeeded, t0), Step::Perform(Request::CheckOutput));
    assert_eq!(state.next(w, Event::Exists(false), t0), Step::Perform(Request::Encode));
    let ran = Event::Ran { success: true, status: String::new(), stderr: String::new() };
    assert_eq!(state.next(w, ran, t0), Step::Perform(Request::OpenOutput));
    assert_eq!(state.next(w, Event::Succeeded, t0), Step::Perform(Request::StatOutput));
    let step = state.next(w, Event::Size(output), t1);
    if step == Step::Perform(Request::RemoveOutput) {
        assert_eq!(state.next(w, Event::Succeeded, t1), Step::Poll);
    } else {
        assert_eq!(step, Step::Poll);
    }
}

#[test]
fn counters_follow_the_outcomes() {
    let mut p = ConversionProgress::default();
    p.total = 3;
    p.total_bytes = 600;
    p.add(100, 40, 7);
    assert_eq!((p.processed, p.input_bytes, p.output_bytes, p.elapsed), (1, 100, 40, 7));
    p.errored(200);
    assert_eq!((p.errored, p.total_bytes), (1, 400));
    p.inefficient(300);
    assert_eq!((p.inefficient, p.total_bytes), (1, 100));
    assert_eq!(p.total, 3);
    assert_eq!(p.remaining(), 0);
    p.errored(101);
    assert_eq!(p.total_bytes, u64::MAX);
    p.add(u64::MAX, u64::MAX, u64::MAX);
    assert_eq!((p.input_bytes, p.output_bytes, p.elapsed), (99, 39, 6));
}

#[test]
fn estimates_use_the_speed_and_the_ratio_so_far() {
    let mut p = ConversionProgress::default();
    p.total_bytes = 1000;
    assert_eq!(p.remaining(), 1000);
    assert_eq!(p.eta(), 0);
    assert_eq!(p.savings(), 1000);
    p.add(250, 100, 50);
    assert_eq!(p.remaining(), 750);
    assert_eq!(p.eta(), 150);
    assert_eq!(p.savings(), 150 + 450);
    p.add(1, 0, 0);
    assert_eq!(p.remaining(), 749);
    assert_eq!(p.eta(), 149);
    assert_eq!(p.savings(), 151 + 749 * 151 / 251);
    let mut worse = ConversionProgress::default();
    worse.total_bytes = 1000;
    worse.add(100, 150, 10);
    assert_eq!(worse.savings(), 0);
    assert_eq!(worse.eta(), 90);
    let mut slow = ConversionProgress::default();
    slow.total_bytes = u64::MAX;
    slow.add(1, 1, u64::MAX);
    assert_eq!(slow.eta(), u64::MAX);
    let mut idle = ConversionProgress::default();
    idle.total_bytes = 10;
    idle.elapsed = 5;
    assert_eq!(idle.eta(), 0);
    assert_eq!(idle.estimate_time(100), None);
    assert_eq!(ConversionProgress::default().estimate_time(100), None);
    assert_eq!(p.estimate_time(0), Some(0));
    assert_eq!(p.estimate_time(251), Some(50));
    assert_eq!(p.estimate_time(1000), Some(199));
    assert_eq!(slow.estimate_time(2), Some(u64::MAX));
}

#[test]
fn statistics_add_up_all_types() {
    let mut table: PerFileType<ConversionProgress> = PerFileType::default();
    table.PNG.total = 4;
    table.PNG.total_bytes = 1000;
    table.PNG.add(250, 100, 50);
    table.BMP.total = 2;
    table.BMP.total_bytes = u64::MAX;
    table.BMP.add(u64::MAX, u64::MAX, 3);
    table.JXL.total = 1;
    table.JXL.errored(0);
    table.GIF.inefficient = 5;
    let stats = collect_stats(&table);
    assert_eq!(stats.total, 7);
    assert_eq!(stats.processed, 2);
    assert_eq!(stats.errored, 1);
    assert_eq!(stats.inefficient, 5);
    assert_eq!(stats.total_bytes, 1000 + u64::MAX as u128);
    assert_eq!(stats.input_bytes, 250 + u64::MAX as u128);
    assert_eq!(stats.output_bytes, 100 + u64::MAX as u128);
    assert_eq!(stats.elapsed, 53);
    assert_eq!(stats.eta, 150);
    assert_eq!(stats.estimated_savings, 600);
    let none = collect_stats(&PerFileType::default());
    assert_eq!(none.total, 0);
    assert_eq!(none.eta, 0);
    assert_eq!(none.estimated_savings, 0);
}

#[test]
fn estimated_time_is_lowered_by_the_time_in_flight() {
    let files = vec![
        entry("a.png", FileType::PNG, 250),
        entry("b.png", FileType::PNG, 250),
        entry("c.png", FileType::PNG, 500),
        entry("d.gif", FileType::GIF, 400),
    ];
    let conv = ConversionState::new(files, 2, 0).unwrap();
    let mut state = SharedState { args: Conv2JxlArgs::default(), conv };
    assert_eq!(state.conv.stats(0).eta, 0);
    assert_eq!(state.conv.stats(0).total_bytes, 1400);
    assert_eq!(state.conv.stats(0).estimated_savings, 1400);
    convert(&mut state, 0, 0, 50, 100);
    let stats = state.conv.stats(50);
    assert_eq!(stats.processed, 1);
    assert_eq!(stats.elapsed, 50);
    assert_eq!(stats.eta, 150);
    assert_eq!(stats.estimated_savings, 150 + 450 + 400);
    assert_eq!(state.conv.active(60), vec![None, None]);
    assert_eq!(state.next(1, Event::Succeeded, 60), Step::Poll);
    assert_eq!(state.conv.active(100), vec![None, Some((1, 40))]);
    assert_eq!(state.conv.stats(100).eta, 110);
    assert_eq!(state.next(0, Event::Succeeded, 90), Step::Poll);
    assert_eq!(state.conv.active(100), vec![Some((2, 10)), Some((1, 40))]);
    assert_eq!(state.conv.stats(100).eta, 100);
    assert_eq!(state.conv.stats(1000).eta, 0);
    assert_eq!(state.conv.active(10), vec![Some((2, 0)), Some((1, 0))]);
}

#[test]
fn items_that_need_attention_are_listed_latest_first() {
    let files = (0..6).map(|i| entry(&format!("{i}.png"), FileType::PNG, 100)).collect();
    let conv = ConversionState::new(files, 1, 0).unwrap();
    let mut state = SharedState { args: Conv2JxlArgs::default(), conv };
    convert(&mut state, 0, 0, 30, 200);
    convert(&mut state, 0, 31, 20, 50);
    convert(&mut state, 0, 32, 30, 0);
    convert(&mut state, 0, 33, 10, 300);
    convert(&mut state, 0, 34, 40, 300);
    assert!(matches!(state.conv.file(0).state, Some(ConversionOutcome::Inefficient(100, 200))));
    assert!(matches!(state.conv.file(1).state, Some(ConversionOutcome::Success(100, 50))));
    assert!(matches!(state.conv.file(2).state, Some(ConversionOutcome::Error(_))));
    assert_eq!(state.conv.attention_list(), vec![(40, 4), (30, 0), (30, 2), (10, 3)]);
    assert_eq!(state.conv.settled_list(), vec![(20, 1)]);
    let png = state.conv.progress(FileType::PNG);
    assert_eq!((png.processed, png.errored, png.inefficient), (1, 1, 3));
    assert_eq!(png.total_bytes, 200);
    assert_eq!(png.elapsed, 0);
}
