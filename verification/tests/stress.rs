use conv2jxl::attempt::{Event, Request};
use conv2jxl::cli::{Conv2JxlArgs, FileType};
use conv2jxl::convert::{ConversionState, SharedState, Step, NO_FILE};
use conv2jxl::outcome::{ConversionOutcome, FileEntry, Metadata};

/// Runs sixteen workers over forty files, the worker that steps next being
/// picked by a simple generator of numbers started from `seed`, and checks
/// after every step that no two busy workers hold the same file.
fn run_in_some_order(seed: u64) {
    let files: Vec<FileEntry> = (0..40)
        .map(|i| {
            FileEntry::new(
                format!("f{i}.png"),
                FileType::PNG,
                Metadata { len: 100 + i, created: None, modified: None, accessed: None },
            )
        })
        .collect();
    let workers = 16;
    let conv = ConversionState::new(files, workers, 0).unwrap();
    let mut state = SharedState { args: Conv2JxlArgs::default(), conv };
    let mut encodes = vec![0usize; 40];
    let mut events: Vec<Event> = (0..workers).map(|_| Event::Succeeded).collect();
    let mut exited = vec![false; workers];
    let mut number = seed;
    let mut now = 0;
    while exited.iter().any(|e| !e) {
        number = number.wrapping_mul(6364136223846793005).wrapping_add(1442695040888963407);
        let w = (number >> 33) as usize % workers;
        if exited[w] {
            continue;
        }
        now += 1;
        let report = std::mem::replace(&mut events[w], Event::Succeeded);
        let before: Vec<bool> = (0..40).map(|i| state.conv.file(i).state.is_some()).collect();
        match state.next(w, report, now) {
            Step::Exit => exited[w] = true,
            Step::Poll | Step::Wait => {}
            Step::Perform(Request::CheckOutput) => events[w] = Event::Exists(false),
            Step::Perform(Request::Encode) => {
                encodes[state.conv.slot(w).file_idx] += 1;
                events[w] =
                    Event::Ran { success: true, status: String::new(), stderr: String::new() };
            }
            Step::Perform(Request::StatOutput) => events[w] = Event::Size(50),
            Step::Perform(_) => events[w] = Event::Succeeded,
        }
        for i in 0..40 {
            let done = state.conv.file(i).state.is_some();
            assert!(done || !before[i], "an outcome was taken back");
            if done != before[i] {
                assert_eq!(state.conv.slot(w).file_idx, i, "another worker's file got an outcome");
            }
        }
        let mut held: Vec<usize> = (0..workers)
            .filter(|&s| state.conv.is_busy(s))
            .map(|s| state.conv.slot(s).file_idx)
            .collect();
        assert!(held.iter().all(|&i| i != NO_FILE && state.conv.file(i).state.is_none()));
        held.sort();
        held.dedup();
        assert_eq!(held.len(), (0..workers).filter(|&s| state.conv.is_busy(s)).count());
    }
    assert!(state.conv.completed());
    assert_eq!(encodes, vec![1usize; 40]);
    for i in 0..40 {
        let len = 100 + i as u64;
        match state.conv.file(i).state {
            Some(ConversionOutcome::Success(input, 50)) => assert_eq!(input, len),
            ref other => panic!("unexpected outcome {other:?}"),
        }
    }
    let png = state.conv.progress(FileType::PNG);
    assert_eq!(png.processed, 40);
    assert_eq!(png.input_bytes, (0..40).map(|i| 100 + i).sum::<u64>());
    assert_eq!(png.output_bytes, 40 * 50);
}

#[test]
fn workers_in_any_order_write_each_outcome_once() {
    for seed in 0..25 {
        run_in_some_order(seed);
    }
}
