use conv2jxl::cli::{Conv2JxlArgs, FileType, SortMethod, SortOrder};
use conv2jxl::order::{
    arrange, exchange, limit, randomize, reach, sort_key, window_start,
};
use conv2jxl::outcome::{FileEntry, Metadata};
use conv2jxl::pattern::{left_out, Pattern, Patterns};
use conv2jxl::scan::{
    prepare, reads_directory, screen, screen_root, seed, settle, EntryKind, Root, ScanObserver,
    Screen,
};
use rand::rngs::SmallRng;
use rand::SeedableRng;

fn file(path: &str, len: u64, modified: Option<u64>) -> FileEntry {
    FileEntry::new(
        path.to_string(),
        FileType::PNG,
        Metadata { len, created: modified.map(|t| t + 1), modified, accessed: Some(len) },
    )
}

fn paths(files: &[FileEntry]) -> Vec<&str> {
    files.iter().map(|f| f.path.as_str()).collect()
}

fn no_patterns() -> Patterns {
    Patterns::new(&None, &None).ok().unwrap()
}

#[test]
fn patterns_compile_or_fail_with_a_reason() {
    assert!(Pattern::new("a+b").is_ok());
    let error = Pattern::new("a(b").err().unwrap();
    assert!(!error.0.is_empty());
    assert!(Patterns::new(&Some("x".to_string()), &Some("(".to_string())).is_err());
    assert!(Patterns::new(&Some("[".to_string()), &None).is_err());
    assert!(Patterns::new(&Some("x".to_string()), &Some("y".to_string())).is_ok());
    assert!(!no_patterns().is_set());
}

#[test]
fn patterns_match_anywhere_in_the_text() {
    let pattern = Pattern::new(r"holiday\d+").ok().unwrap();
    assert!(pattern.is_match("/photos/holiday2024/a.png"));
    assert!(!pattern.is_match("/photos/holiday/a.png"));
    assert!(!pattern.is_match(""));
}

#[test]
fn filter_must_match_and_exclusion_must_not() {
    let both =
        Patterns::new(&Some("photos".to_string()), &Some(r"\.tmp\.".to_string())).ok().unwrap();
    assert!(both.is_set());
    assert!(!both.excludes("/photos/a.png"));
    assert!(both.excludes("/music/a.png"));
    assert!(both.excludes("/photos/a.tmp.png"));
    let filter = Patterns::new(&Some("photos".to_string()), &None).ok().unwrap();
    assert!(!filter.excludes("/photos/a.tmp.png"));
    assert!(filter.excludes("/music/a.png"));
    let exclude = Patterns::new(&None, &Some("music".to_string())).ok().unwrap();
    assert!(exclude.excludes("/music/a.png"));
    assert!(!exclude.excludes("/photos/a.png"));
    assert!(!no_patterns().excludes("/anything"));
    assert!(!left_out(None, None));
    assert!(!left_out(Some(true), None));
    assert!(left_out(Some(false), None));
    assert!(!left_out(None, Some(false)));
    assert!(left_out(None, Some(true)));
    assert!(left_out(Some(true), Some(true)));
    assert!(left_out(Some(false), Some(false)));
    assert!(!left_out(Some(true), Some(false)));
}

#[test]
fn entries_are_screened_in_the_order_of_the_rules() {
    let mut args = Conv2JxlArgs::default();
    let none = no_patterns();
    let music = Patterns::new(&None, &Some("music".to_string())).ok().unwrap();
    let png = Some("png");
    let at = |p: &'static str| Some(p);

    assert_eq!(screen(&args, &none, 0, EntryKind::File, png, at("/a.png")), Screen::Stat(FileType::PNG));
    assert_eq!(screen(&args, &none, 0, EntryKind::File, Some("gif"), at("/a.gif")), Screen::Skip);
    assert_eq!(screen(&args, &none, 0, EntryKind::File, None, at("/a")), Screen::Skip);
    assert_eq!(screen(&args, &music, 0, EntryKind::File, png, at("/music/a.png")), Screen::Excluded);
    assert_eq!(screen(&args, &music, 0, EntryKind::File, png, None), Screen::Stat(FileType::PNG));
    assert_eq!(screen(&args, &music, 0, EntryKind::File, Some("txt"), at("/music/a.txt")), Screen::Skip);
    assert_eq!(screen(&args, &music, 0, EntryKind::Dir, None, at("/music")), Screen::Excluded);
    assert_eq!(screen(&args, &music, 0, EntryKind::Symlink, None, at("/music/l")), Screen::Excluded);

    assert_eq!(screen(&args, &none, 0, EntryKind::Dir, None, at("/d")), Screen::Skip);
    assert_eq!(screen(&args, &none, 0, EntryKind::Symlink, png, at("/l.png")), Screen::Skip);
    assert_eq!(screen(&args, &none, 0, EntryKind::Other, png, at("/p.png")), Screen::Skip);
    args.recurse = true;
    args.follow_links = true;
    assert_eq!(screen(&args, &none, 3, EntryKind::Dir, None, at("/d")), Screen::Descend);
    assert_eq!(screen(&args, &none, 0, EntryKind::Symlink, png, at("/l.png")), Screen::Follow);
    args.min_depth = 2;
    assert_eq!(screen(&args, &none, 1, EntryKind::File, png, at("/a.png")), Screen::Skip);
    assert_eq!(screen(&args, &none, 2, EntryKind::File, png, at("/a.png")), Screen::Stat(FileType::PNG));
    assert_eq!(screen(&args, &none, 1, EntryKind::Dir, None, at("/d")), Screen::Descend);
}

#[test]
fn followed_links_are_settled_by_what_they_point_to() {
    let mut args = Conv2JxlArgs::default();
    assert_eq!(settle(&args, 0, EntryKind::Dir, None), Screen::Skip);
    assert_eq!(settle(&args, 0, EntryKind::Other, None), Screen::Skip);
    assert_eq!(settle(&args, 0, EntryKind::Symlink, None), Screen::Skip);
    assert_eq!(settle(&args, 0, EntryKind::File, Some(FileType::GIF)), Screen::Stat(FileType::GIF));
    args.recurse = true;
    args.min_depth = 1;
    assert_eq!(settle(&args, 0, EntryKind::Dir, None), Screen::Descend);
    assert_eq!(settle(&args, 0, EntryKind::File, None), Screen::Skip);
    assert_eq!(settle(&args, 0, EntryKind::File, Some(FileType::GIF)), Screen::Skip);
}

#[test]
fn named_paths_are_taken_as_files_or_directories() {
    let mut args = Conv2JxlArgs::default();
    args.min_size = 10;
    args.max_size = 20;
    assert_eq!(screen_root(&args, EntryKind::File, 10, Some("png")), Root::File(FileType::PNG));
    assert_eq!(screen_root(&args, EntryKind::File, 20, Some("PNG")), Root::File(FileType::PNG));
    assert_eq!(screen_root(&args, EntryKind::File, 9, Some("png")), Root::Skip);
    assert_eq!(screen_root(&args, EntryKind::File, 21, Some("png")), Root::Skip);
    assert_eq!(screen_root(&args, EntryKind::File, 15, Some("jpg")), Root::Skip);
    assert_eq!(screen_root(&args, EntryKind::File, 15, None), Root::Skip);
    assert_eq!(screen_root(&args, EntryKind::Dir, 0, None), Root::Dir);
    assert_eq!(screen_root(&args, EntryKind::Other, 15, Some("png")), Root::Skip);
    assert_eq!(screen_root(&args, EntryKind::Symlink, 15, Some("png")), Root::Skip);
    args.max_depth = 3;
    assert!(reads_directory(&args, 3));
    assert!(!reads_directory(&args, 4));
}

#[test]
fn files_are_sorted_by_size_time_and_name() {
    let list = || {
        vec![
            file("b/2.png", 30, Some(5)),
            file("a/9.png", 10, None),
            file("a-b/1.png", 20, Some(9)),
            file("a/1.png", 10, Some(1)),
        ]
    };
    let sorted = |method, order| {
        let mut files = list();
        arrange(&mut files, method, order);
        files.iter().map(|f| f.path.clone()).collect::<Vec<_>>()
    };
    assert_eq!(sorted(SortMethod::Unsorted, SortOrder::Desc), ["b/2.png", "a/9.png", "a-b/1.png", "a/1.png"]);
    assert_eq!(sorted(SortMethod::Size, SortOrder::Asc), ["a/9.png", "a/1.png", "a-b/1.png", "b/2.png"]);
    assert_eq!(sorted(SortMethod::Size, SortOrder::Desc), ["b/2.png", "a-b/1.png", "a/9.png", "a/1.png"]);
    assert_eq!(sorted(SortMethod::MTime, SortOrder::Asc), ["a/9.png", "a/1.png", "b/2.png", "a-b/1.png"]);
    assert_eq!(sorted(SortMethod::MTime, SortOrder::Desc), ["a-b/1.png", "b/2.png", "a/1.png", "a/9.png"]);
    assert_eq!(sorted(SortMethod::CTime, SortOrder::Asc), ["a/9.png", "a/1.png", "b/2.png", "a-b/1.png"]);
    assert_eq!(sorted(SortMethod::ATime, SortOrder::Desc), ["b/2.png", "a-b/1.png", "a/9.png", "a/1.png"]);
    assert_eq!(sorted(SortMethod::Name, SortOrder::Asc), ["a/1.png", "a/9.png", "a-b/1.png", "b/2.png"]);
    assert_eq!(sorted(SortMethod::Name, SortOrder::Desc), ["b/2.png", "a-b/1.png", "a/9.png", "a/1.png"]);
}

#[test]
fn sort_keys_put_unknown_times_first_when_ascending() {
    let known = file("a", 7, Some(3));
    let unknown = file("b", 7, None);
    assert_eq!(sort_key(&known, SortMethod::Size, SortOrder::Asc), (0, 7));
    assert_eq!(sort_key(&known, SortMethod::Size, SortOrder::Desc), (0, u64::MAX - 7));
    assert_eq!(sort_key(&known, SortMethod::MTime, SortOrder::Asc), (1, 3));
    assert_eq!(sort_key(&unknown, SortMethod::MTime, SortOrder::Asc), (0, 0));
    assert_eq!(sort_key(&known, SortMethod::MTime, SortOrder::Desc), (0, u64::MAX - 3));
    assert_eq!(sort_key(&unknown, SortMethod::MTime, SortOrder::Desc), (1, 0));
    assert_eq!(sort_key(&known, SortMethod::CTime, SortOrder::Asc), (1, 4));
    assert_eq!(sort_key(&known, SortMethod::ATime, SortOrder::Asc), (1, 7));
    assert_eq!(sort_key(&known, SortMethod::Name, SortOrder::Asc), (0, 0));
    assert_eq!(sort_key(&known, SortMethod::Unsorted, SortOrder::Desc), (0, 0));
}

#[test]
fn shuffling_keeps_every_file() {
    let names: Vec<String> = (0..200).map(|i| format!("f{i:03}.png")).collect();
    for factor in [0u32, 1, 250_000, 999_999, 1_000_000] {
        let mut files: Vec<FileEntry> = names.iter().map(|n| file(n, 1, None)).collect();
        let mut rng = SmallRng::seed_from_u64(42);
        randomize(&mut files, factor, &mut rng);
        let mut after: Vec<String> = files.iter().map(|f| f.path.clone()).collect();
        if factor == 0 {
            assert_eq!(after, names);
        }
        if factor == 1_000_000 {
            assert_ne!(after, names);
        }
        after.sort();
        assert_eq!(after, names);
    }
    let mut empty: Vec<FileEntry> = Vec::new();
    randomize(&mut empty, 500_000, &mut SmallRng::seed_from_u64(1));
    assert!(empty.is_empty());
}

#[test]
fn partial_shuffle_moves_files_within_reach_only() {
    assert_eq!(window_start(10, 3), 7);
    assert_eq!(window_start(3, 3), 0);
    assert_eq!(window_start(2, 3), 0);
    assert_eq!(window_start(0, 1), 0);
    assert_eq!(window_start(usize::MAX, 1), usize::MAX - 1);
    assert_eq!(reach(200, 10_000), 2);
    assert_eq!(reach(200, 1), 1);
    assert_eq!(reach(0, 500_000), 1);
    assert_eq!(reach(3, 500_000), 2);
    assert_eq!(reach(1_000_000, 250_000), 250_000);
    assert_eq!(reach(1_000_001, 250_000), 250_001);
    let mut files: Vec<FileEntry> = (0..200).map(|i| file(&format!("{i}"), i, None)).collect();
    let mut rng = SmallRng::seed_from_u64(7);
    randomize(&mut files, 10_000, &mut rng);
    for (place, f) in files.iter().enumerate() {
        assert!(f.metadata.len + 2 >= place as u64, "a file moved back further than the reach");
    }
    let mut files: Vec<FileEntry> = (0..200).map(|i| file(&format!("{i}"), i, None)).collect();
    randomize(&mut files, 500_000, &mut rng);
    assert!(files.iter().enumerate().any(|(place, f)| f.metadata.len != place as u64));
}

#[test]
fn one_draw_exchanges_two_files_or_none() {
    let list = || vec![file("a", 1, None), file("b", 2, None), file("c", 3, None)];
    let mut files = list();
    exchange(&mut files, 2, Some(0));
    assert_eq!(paths(&files), ["c", "b", "a"]);
    exchange(&mut files, 1, Some(2));
    assert_eq!(paths(&files), ["c", "a", "b"]);
    exchange(&mut files, 1, Some(1));
    assert_eq!(paths(&files), ["c", "a", "b"]);
    exchange(&mut files, 1, None);
    assert_eq!(paths(&files), ["c", "a", "b"]);
    exchange(&mut files, 3, Some(0));
    assert_eq!(paths(&files), ["c", "a", "b"]);
    exchange(&mut files, 0, Some(3));
    assert_eq!(paths(&files), ["c", "a", "b"]);
    let mut empty: Vec<FileEntry> = Vec::new();
    exchange(&mut empty, 0, Some(0));
    assert!(empty.is_empty());
}

#[test]
fn limit_cuts_the_list_off() {
    let mut files = vec![file("a", 1, None), file("b", 2, None), file("c", 3, None)];
    limit(&mut files, None);
    assert_eq!(paths(&files), ["a", "b", "c"]);
    limit(&mut files, Some(5));
    assert_eq!(paths(&files), ["a", "b", "c"]);
    limit(&mut files, Some(3));
    assert_eq!(paths(&files), ["a", "b", "c"]);
    limit(&mut files, Some(2));
    assert_eq!(paths(&files), ["a", "b"]);
    limit(&mut files, Some(0));
    assert!(files.is_empty());
}

#[test]
fn prepare_sorts_shuffles_and_limits() {
    let mut args = Conv2JxlArgs::default();
    args.sort = SortMethod::Size;
    args.sort_order = SortOrder::Desc;
    args.limit = Some(2);
    let mut files = vec![file("a", 1, None), file("b", 3, None), file("c", 2, None)];
    prepare(&mut files, &args, &mut SmallRng::seed_from_u64(3));
    assert_eq!(paths(&files), ["b", "c"]);
    args.limit = None;
    args.randomize = 1_000_000;
    let mut files: Vec<FileEntry> = (0..50).map(|i| file(&format!("{i:02}"), i, None)).collect();
    prepare(&mut files, &args, &mut SmallRng::seed_from_u64(3));
    let mut names = paths(&files);
    assert_eq!(names.len(), 50);
    names.sort();
    names.dedup();
    assert_eq!(names.len(), 50);
}

#[test]
fn observer_counts_what_is_found_and_ends_with_the_totals() {
    let mut observer = ScanObserver::default();
    observer.directory_found();
    observer.directory_found();
    observer.directory_read();
    observer.file_found(FileType::PNG, 10);
    observer.file_found(FileType::PNG, 20);
    observer.file_found(FileType::GIF, 5);
    assert_eq!((observer.dir_found, observer.dir_read), (2, 1));
    assert_eq!((observer.files.PNG.found, observer.files.PNG.bytes), (2, 30));
    assert_eq!((observer.files.GIF.found, observer.files.GIF.bytes), (1, 5));
    assert_eq!((observer.files.JPEG.found, observer.files.JPEG.bytes), (0, 0));
    observer.files.GIF.bytes = u64::MAX;
    observer.file_found(FileType::GIF, 2);
    assert_eq!(observer.files.GIF.bytes, 1);

    let mut args = Conv2JxlArgs::default();
    args.parallel = 3;
    let gif = FileEntry::new(
        "x.gif".to_string(),
        FileType::GIF,
        Metadata { len: 8, created: None, modified: None, accessed: None },
    );
    let files = vec![file("a", 100, None), gif, file("b", 50, None)];
    let state = seed(files, &args, 4, &mut observer).unwrap();
    assert_eq!((observer.files.PNG.found, observer.files.PNG.bytes), (2, 150));
    assert_eq!((observer.files.GIF.found, observer.files.GIF.bytes), (1, 8));
    assert_eq!((observer.files.JPEG.found, observer.files.JPEG.bytes), (0, 0));
    assert_eq!((observer.dir_found, observer.dir_read), (2, 1));
    assert_eq!(state.workers(), 3);
    assert_eq!(state.len(), 3);
    assert_eq!(state.excluded(), 4);
    assert_eq!(state.progress(FileType::PNG).total, 2);
    assert_eq!(state.progress(FileType::PNG).total_bytes, 150);

    let too_much = vec![file("a", u64::MAX, None), file("b", 1, None)];
    assert!(seed(too_much, &args, 0, &mut observer).is_none());
    assert_eq!((observer.files.PNG.found, observer.files.PNG.bytes), (2, 150));
}
