use conv2jxl::cli::{
    Conv2JxlArgs, FileType, FileTypes, InvalidFileType, InvalidSortDirection, InvalidSortMethod,
    PerFileType, Ratio, SortMethod, SortOrder,
};
use conv2jxl::enums;

#[test]
fn file_type_names_are_parsed_without_regard_to_case() {
    assert_eq!(FileType::from_str("png"), Ok(FileType::PNG));
    assert_eq!(FileType::from_str("PNG"), Ok(FileType::PNG));
    assert_eq!(FileType::from_str("JpG"), Ok(FileType::JPEG));
    assert_eq!(FileType::from_str("jpeg"), Ok(FileType::JPEG));
    assert_eq!(FileType::from_str("tif"), Ok(FileType::TIFF));
    assert_eq!(FileType::from_str("TIFF"), Ok(FileType::TIFF));
    assert_eq!(FileType::from_str("jxl"), Ok(FileType::JXL));
    assert_eq!(FileType::from_str("apng"), Ok(FileType::APNG));
    assert_eq!(FileType::from_str("bmp"), Err(InvalidFileType));
    assert_eq!(FileType::from_str(""), Err(InvalidFileType));
    assert_eq!(FileType::from_str(" png"), Err(InvalidFileType));
    assert_eq!(FileType::from_str("pn"), Err(InvalidFileType));
    assert_eq!(FileType::from_str("pngg"), Err(InvalidFileType));
}

#[test]
fn every_type_but_bmp_is_parsed_from_its_own_name() {
    for t in FileType::all() {
        assert_eq!(t.to_string(), t.name());
        if t == FileType::BMP {
            assert_eq!(FileType::from_str(t.name()), Err(InvalidFileType));
        } else {
            assert_eq!(FileType::from_str(t.name()), Ok(t));
            assert_eq!(FileType::from_str(&t.name().to_uppercase()), Ok(t));
        }
    }
    assert_eq!(FileType::all().len(), 14);
    assert_eq!(FileType::JPEG.name(), "jpeg");
    assert_eq!(FileType::TIFF.name(), "tiff");
}

#[test]
fn only_four_types_need_conversion() {
    for t in FileType::all() {
        let expected =
            matches!(t, FileType::TIFF | FileType::TGA | FileType::QOI | FileType::BMP);
        assert_eq!(t.needs_conversion(), expected);
    }
}

#[test]
fn sort_methods_and_orders_are_parsed() {
    assert_eq!(SortMethod::from_str("none"), Ok(SortMethod::Unsorted));
    assert_eq!(SortMethod::from_str("Size"), Ok(SortMethod::Size));
    assert_eq!(SortMethod::from_str("NAME"), Ok(SortMethod::Name));
    assert_eq!(SortMethod::from_str("mtime"), Ok(SortMethod::MTime));
    assert_eq!(SortMethod::from_str("ctime"), Ok(SortMethod::CTime));
    assert_eq!(SortMethod::from_str("atime"), Ok(SortMethod::ATime));
    assert_eq!(SortMethod::from_str("asc"), Err(InvalidSortMethod));
    assert_eq!(SortMethod::from_str(""), Err(InvalidSortMethod));
    for name in ["asc", "ascending", "up", "increasing", "ASC", "Up"] {
        assert_eq!(SortOrder::from_str(name), Ok(SortOrder::Asc));
    }
    for name in ["desc", "descending", "down", "decreasing", "DOWN"] {
        assert_eq!(SortOrder::from_str(name), Ok(SortOrder::Desc));
    }
    assert_eq!(SortOrder::from_str("sideways"), Err(InvalidSortDirection));
    assert_eq!(SortMethod::default(), SortMethod::Unsorted);
    assert_eq!(SortOrder::default(), SortOrder::Asc);
}

#[test]
fn extended_sort_methods_and_time_fields_are_parsed() {
    assert_eq!(enums::SortMethod::from_str("none"), Ok(enums::SortMethod::Unsorted));
    assert_eq!(enums::SortMethod::from_str("asc"), Ok(enums::SortMethod::Asc));
    assert_eq!(enums::SortMethod::from_str("DESC"), Ok(enums::SortMethod::Desc));
    assert_eq!(enums::SortMethod::from_str("rand"), Ok(enums::SortMethod::Rand));
    assert_eq!(enums::SortMethod::from_str("name"), Ok(enums::SortMethod::Name));
    assert_eq!(enums::SortMethod::from_str("mtime"), Ok(enums::SortMethod::MTime));
    assert_eq!(enums::SortMethod::from_str("ctime"), Ok(enums::SortMethod::CTime));
    assert_eq!(enums::SortMethod::from_str("atime"), Ok(enums::SortMethod::ATime));
    assert_eq!(enums::SortMethod::from_str("size"), Err(enums::InvalidSortMethod));
    assert_eq!(enums::RecentField::from_str("MTime"), Ok(enums::RecentField::MTime));
    assert_eq!(enums::RecentField::from_str("ctime"), Ok(enums::RecentField::CTime));
    assert_eq!(enums::RecentField::from_str("atime"), Ok(enums::RecentField::ATime));
    assert_eq!(enums::RecentField::from_str("btime"), Err(enums::InvalidRecentField));
    assert_eq!(enums::SortMethod::default(), enums::SortMethod::Unsorted);
    assert_eq!(enums::RecentField::default(), enums::RecentField::MTime);
}

#[test]
fn errors_have_their_texts() {
    assert_eq!(InvalidFileType.to_string(), "invalid file type");
    assert_eq!(InvalidSortMethod.to_string(), "invalid sort method");
    assert_eq!(InvalidSortDirection.to_string(), "invalid sort direction");
    assert_eq!(enums::InvalidSortMethod.to_string(), "invalid sort method");
    assert_eq!(enums::InvalidRecentField.to_string(), "invalid recent field");
}

#[test]
fn per_file_type_table_keeps_one_value_for_each_type() {
    let mut table: PerFileType<u32> = PerFileType::default();
    for (i, t) in FileType::all().into_iter().enumerate() {
        *table.get_mut(t) = i as u32 + 1;
    }
    for (i, t) in FileType::all().into_iter().enumerate() {
        assert_eq!(*table.get(t), i as u32 + 1);
    }
    assert_eq!(table.PNG, 7);
    assert_eq!(table.BMP, 14);
}

#[test]
fn file_type_lists_are_parsed_part_by_part() {
    let types = FileTypes::from_str("png, JPG ,gif").unwrap();
    assert!(types.contains(FileType::PNG));
    assert!(types.contains(FileType::JPEG));
    assert!(types.contains(FileType::GIF));
    assert!(!types.contains(FileType::TIFF));
    let one = FileTypes::from_str("tiff").unwrap();
    for t in FileType::all() {
        assert_eq!(one.contains(t), t == FileType::TIFF);
    }
    assert_eq!(FileTypes::from_str("png,png"), FileTypes::from_str(" png "));
    assert!(FileTypes::from_str("").is_err());
    assert!(FileTypes::from_str("png,").is_err());
    assert!(FileTypes::from_str(",png").is_err());
    assert!(FileTypes::from_str("png,,gif").is_err());
    assert!(FileTypes::from_str("png;gif").is_err());
    assert!(FileTypes::from_str("bmp").is_err());
    assert!(FileTypes::from_str("*").is_err());
    assert!(FileTypes::from_str("jxl,*").is_err());
}

#[test]
fn the_default_set_holds_png_only() {
    let mut types = FileTypes::default();
    for t in FileType::all() {
        assert_eq!(types.contains(t), t == FileType::PNG);
    }
    assert!(types.insert(FileType::GIF));
    assert!(!types.insert(FileType::GIF));
    assert!(types.contains(FileType::GIF));
    assert!(types.remove(FileType::PNG));
    assert!(!types.remove(FileType::PNG));
    assert!(!types.contains(FileType::PNG));
    assert_eq!(FileTypes::empty().0, PerFileType::default());
}

#[test]
fn defaults_are_those_of_the_command_line() {
    let args = Conv2JxlArgs::default();
    assert_eq!(args.quality, 100);
    assert_eq!(args.effort, 9);
    assert_eq!(args.min_ratio, Ratio { num: 1, den: 1 });
    assert_eq!(args.max_depth, u64::MAX);
    assert_eq!(args.max_size, u64::MAX);
    assert_eq!(args.max_width, u32::MAX);
    assert_eq!(args.max_height, u32::MAX);
    assert_eq!(args.parallel, -1);
    assert_eq!(args.threads, 0);
    assert!(args.lossless_jpeg);
    assert!(!args.dry_run);
    assert_eq!(args.quality_if_inefficient, None);
    assert_eq!(args.randomize, 0);
    assert!(!args.has_bounds());
}

#[test]
fn normalize_brings_every_option_into_its_range() {
    let mut args = Conv2JxlArgs::default();
    args.threads = -7;
    args.quality = 101;
    args.effort = 11;
    args.min_size = 0;
    args.max_size = 0;
    args.min_depth = 5;
    args.max_depth = 2;
    args.parallel = -1;
    args.randomize = 2_000_000;
    args.normalize(12);
    assert_eq!(args.threads, -1);
    assert_eq!(args.quality, 100);
    assert_eq!(args.effort, 10);
    assert_eq!(args.min_size, 1);
    assert_eq!(args.max_size, 1);
    assert_eq!(args.min_depth, 5);
    assert_eq!(args.max_depth, 5);
    assert_eq!(args.parallel, 12);
    assert_eq!(args.randomize, 1_000_000);
    assert_eq!(args.workers(), 12);

    let mut args = Conv2JxlArgs::default();
    args.parallel = 0;
    args.threads = 4;
    args.quality = 100;
    args.min_size = 10;
    args.max_size = 9;
    args.normalize(12);
    assert_eq!(args.parallel, 1);
    assert_eq!(args.threads, 4);
    assert_eq!(args.quality, 100);
    assert_eq!(args.min_size, 10);
    assert_eq!(args.max_size, 10);

    let mut args = Conv2JxlArgs::default();
    args.parallel = -5;
    args.normalize(3);
    assert_eq!(args.parallel, 1);
    args.parallel = 6;
    args.normalize(3);
    assert_eq!(args.parallel, 6);
}

#[test]
fn bounds_on_dimensions_and_size_include_their_ends() {
    let mut args = Conv2JxlArgs::default();
    args.min_width = 10;
    args.max_width = 20;
    args.min_height = 30;
    args.max_height = 40;
    args.min_size = 100;
    args.max_size = 200;
    assert!(args.has_bounds());
    assert_eq!(args.width(), 10..=20);
    assert_eq!(args.height(), 30..=40);
    assert!(args.admits_dimensions(10, 30));
    assert!(args.admits_dimensions(20, 40));
    assert!(!args.admits_dimensions(9, 30));
    assert!(!args.admits_dimensions(21, 30));
    assert!(!args.admits_dimensions(10, 29));
    assert!(!args.admits_dimensions(10, 41));
    assert!(args.admits_size(100));
    assert!(args.admits_size(200));
    assert!(!args.admits_size(99));
    assert!(!args.admits_size(201));
    let mut one = Conv2JxlArgs::default();
    one.max_height = u32::MAX - 1;
    assert!(one.has_bounds());
}

#[test]
fn wanted_types_come_from_the_extension_and_the_set() {
    let mut args = Conv2JxlArgs::default();
    args.extensions.insert(FileType::JPEG);
    assert_eq!(args.wanted(Some("PNG")), Some(FileType::PNG));
    assert_eq!(args.wanted(Some("jpg")), Some(FileType::JPEG));
    assert_eq!(args.wanted(Some("gif")), None);
    assert_eq!(args.wanted(Some("txt")), None);
    assert_eq!(args.wanted(None), None);
    args.parallel = -3;
    assert_eq!(args.workers(), 0);
}
