use conv2jxl::formatting::{strip_non_ascii, Bytes};
use conv2jxl::outcome::ConversionOutcome;
use conv2jxl::ui::{ConvertingUIState, FileTab, ScanningUIState};
use ratatui::style::Color;

fn ui(list_offset: usize) -> ConvertingUIState {
    ConvertingUIState {
        list_offset,
        last_processing: vec![usize::MAX; 2],
        time: 9,
        file_tab: FileTab::Errors,
        details: true,
    }
}

#[test]
fn tabs_follow_each_other_in_a_circle() {
    let all = FileTab::all();
    assert_eq!(
        all,
        [
            FileTab::Files,
            FileTab::Converted,
            FileTab::Errors,
            FileTab::Warnings,
            FileTab::Inefficient,
            FileTab::Breakdown
        ]
    );
    for (i, tab) in all.into_iter().enumerate() {
        assert_eq!(tab.idx(), i);
        assert_eq!(tab.next(), all[(i + 1) % 6]);
        assert_eq!(tab.prev(), all[(i + 5) % 6]);
        assert_eq!(tab.next().prev(), tab);
        assert_eq!(tab.prev().next(), tab);
    }
    assert_eq!(FileTab::Breakdown.next(), FileTab::Files);
    assert_eq!(FileTab::Files.prev(), FileTab::Breakdown);
}

#[test]
fn tabs_have_names_and_colors() {
    let expected = [
        (FileTab::Files, "Files", Color::White, Color::Black),
        (FileTab::Converted, "Converted", Color::Green, Color::Black),
        (FileTab::Errors, "Errors", Color::Red, Color::White),
        (FileTab::Warnings, "Warnings", Color::LightRed, Color::White),
        (FileTab::Inefficient, "Inefficient", Color::Yellow, Color::Black),
        (FileTab::Breakdown, "Breakdown", Color::Blue, Color::White),
    ];
    for (tab, name, accent, text) in expected {
        assert_eq!(tab.name(), name);
        assert_eq!(tab.accent_color(), accent);
        assert_eq!(tab.text_color(), text);
    }
}

#[test]
fn tabs_list_the_files_of_their_kind() {
    let states = [
        None,
        Some(ConversionOutcome::Success(2, 1)),
        Some(ConversionOutcome::Warning(2, 1, "w".to_string())),
        Some(ConversionOutcome::Skipped),
        Some(ConversionOutcome::Error("e".to_string())),
        Some(ConversionOutcome::Inefficient(1, 2)),
    ];
    let listed = |tab: FileTab| states.iter().map(|s| tab.lists(s)).collect::<Vec<_>>();
    assert_eq!(listed(FileTab::Files), [true, false, false, false, false, false]);
    assert_eq!(listed(FileTab::Converted), [false, true, true, true, false, false]);
    assert_eq!(listed(FileTab::Errors), [false, false, false, false, true, false]);
    assert_eq!(listed(FileTab::Warnings), [false, false, true, false, false, false]);
    assert_eq!(listed(FileTab::Inefficient), [false, false, false, false, false, true]);
    assert_eq!(listed(FileTab::Breakdown), [false; 6]);
}

#[test]
fn scrolling_stays_within_the_list() {
    let scroll = |from: usize, by: i32, files: usize| {
        let mut state = ui(from);
        state.add_offset(by, files);
        assert_eq!(state.time, 9);
        assert_eq!(state.file_tab, FileTab::Errors);
        assert!(state.details);
        assert_eq!(state.last_processing, vec![usize::MAX; 2]);
        state.list_offset
    };
    assert_eq!(scroll(5, 1, 100), 6);
    assert_eq!(scroll(5, -1, 100), 4);
    assert_eq!(scroll(5, -5, 100), 0);
    assert_eq!(scroll(5, -6, 100), 0);
    assert_eq!(scroll(5, i32::MIN, 100), 0);
    assert_eq!(scroll(98, 1, 100), 99);
    assert_eq!(scroll(98, 2, 100), 99);
    assert_eq!(scroll(98, i32::MAX, 100), 99);
    assert_eq!(scroll(0, 0, 100), 0);
    assert_eq!(scroll(0, 3, 0), 0);
    assert_eq!(scroll(0, 3, 1), 0);
    assert_eq!(scroll(150, 0, 100), 99);
    assert_eq!(scroll(150, -10, 100), 140);
    assert_eq!(scroll(usize::MAX, 1, usize::MAX), usize::MAX - 1);
}

#[test]
fn scanning_state_is_plain_data() {
    let state = ScanningUIState { list_offset: 1, time: 2, start: 3 };
    assert_eq!(state, ScanningUIState { list_offset: 1, time: 2, start: 3 });
    assert!(Bytes(5) < Bytes(6));
    assert_eq!(Bytes(7).0, 7);
}

#[test]
fn characters_outside_ascii_are_replaced() {
    assert_eq!(strip_non_ascii("naïve café".to_string(), None), "na?ve caf?");
    assert_eq!(strip_non_ascii("naïve café".to_string(), Some("")), "nave caf");
    assert_eq!(strip_non_ascii("日本.png".to_string(), Some("<?>")), "<?><?>.png");
    assert_eq!(strip_non_ascii("plain".to_string(), Some("x")), "plain");
    assert_eq!(strip_non_ascii(String::new(), None), "");
    assert_eq!(strip_non_ascii("\u{7f}\u{80}".to_string(), None), "\u{7f}?");
}
