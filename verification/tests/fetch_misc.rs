use destinypedia::fetch::cache::{Cache, CacheFile, Cachedata};
use destinypedia::fetch::cli::{parse_as_utc, path_check, utc_from_readings, DownloadArgs, StdinInput};
use destinypedia::fetch::error::DestinyFetchError;
use destinypedia::fetch::input::{collect_ids, ids_from_lines, parse_ids_lines, titles_from_lines};
use destinypedia::fetch::prompt::{
    dir_answer, download_args_for, named_answer, Collected, DirAnswer, IdCollector, Selection,
    TitleCollector,
};
use destinypedia::fetch::rows::{Ext, ImagesRow};

fn image(id: i64) -> ImagesRow {
    ImagesRow {
        id,
        title: format!("Image {}", id),
        size: 1,
        width: 1,
        height: 1,
        url: String::new(),
        timestamp: 0,
        extension: Ext::JPG,
    }
}

#[test]
fn timestamps_of_arguments() {
    assert_eq!(parse_as_utc("2020-12-25"), Ok(1608854400));
    assert_eq!(parse_as_utc("2020-12-25 13:45"), Ok(1608903900));
    assert!(matches!(parse_as_utc("25/12/2020"), Err(DestinyFetchError::InvalidTimestampErr(_))));
    assert_eq!(utc_from_readings(Some(5), Err("bad".into())), Ok(5));
    assert_eq!(utc_from_readings(None, Ok(7)), Ok(7));
    assert_eq!(
        utc_from_readings(None, Err("bad".into())),
        Err(DestinyFetchError::InvalidTimestampErr("bad".into()))
    );
}

#[test]
fn path_checks() {
    assert_eq!(path_check("/tmp".into(), true), Ok("/tmp".to_string()));
    assert_eq!(path_check("/tmp".into(), false), Err(DestinyFetchError::InvalidPathErr));
}

#[test]
fn no_input_means_nothing_named() {
    let mut a = DownloadArgs::default();
    assert!(a.no_input());
    a.input = Some(StdinInput::default());
    assert!(!a.no_input());
}

#[test]
fn titles_are_collected_once() {
    let mut c = TitleCollector::new();
    assert_eq!(c.count(), 1);
    assert_eq!(c.accept(" Hive "), Collected::Added);
    assert_eq!(c.accept("Hive"), Collected::Duplicate);
    assert_eq!(c.accept("Fallen"), Collected::Added);
    assert_eq!(c.count(), 3);
    assert_eq!(c.accept("-1"), Collected::Finish);
    assert_eq!(c.into_titles(), vec!["Hive".to_string(), "Fallen".to_string()]);
}

#[test]
fn ids_are_collected_once() {
    let mut c = IdCollector::new();
    assert_eq!(c.accept(12), Ok(Collected::Added));
    assert_eq!(c.accept(12), Ok(Collected::Duplicate));
    assert_eq!(c.accept(70000), Err(DestinyFetchError::NegativeArgErr));
    assert_eq!(c.accept(0), Ok(Collected::Added));
    assert_eq!(c.count(), 3);
    assert_eq!(c.accept(-1), Ok(Collected::Finish));
    let mut ids = c.into_ids();
    ids.sort();
    assert_eq!(ids, vec![0, 12]);
}

#[test]
fn prompt_answers() {
    assert_eq!(named_answer("-1"), Err(DestinyFetchError::Quit));
    assert_eq!(named_answer(" Raids"), Ok(" Raids".to_string()));
    assert_eq!(dir_answer("."), DirAnswer::WorkingDir);
    assert_eq!(dir_answer("/tmp"), DirAnswer::Path("/tmp".into()));
    let a = download_args_for(Selection::Ids(vec![1, 2]));
    assert_eq!(a.input, Some(StdinInput { titles: None, ids: Some(vec![1, 2]), in_category: None }));
    assert!(a.input_file.is_none() && !a.noconfirm && a.output_dir.is_none());
}

#[test]
fn id_lines_that_are_not_u16() {
    for bad in ["-1", "abc", "", "+", "65536", " 7", "1.5"] {
        assert_eq!(ids_from_lines(&vec![bad.to_string()]), Err(DestinyFetchError::NegativeArgErr));
    }
    assert_eq!(ids_from_lines(&vec!["+7".into(), "007".into()]), Ok(vec![7, 7]));
    assert_eq!(parse_ids_lines(&vec!["-2147483648".into(), "+2147483647".into()], "f"), Ok(vec![i32::MIN, i32::MAX]));
    assert_eq!(
        parse_ids_lines(&vec!["2147483648".into()], "f"),
        Err(DestinyFetchError::ParseIdErr("2147483648".into(), "f".into()))
    );
}

#[test]
fn lines_of_files() {
    let lines = vec![" Hive  ".to_string(), "Fallen".to_string()];
    assert_eq!(titles_from_lines(&lines), vec!["Hive".to_string(), "Fallen".to_string()]);
    assert_eq!(ids_from_lines(&vec!["1".into(), "65535".into()]), Ok(vec![1, 65535]));
    assert_eq!(ids_from_lines(&vec!["1".into(), "-2".into()]), Err(DestinyFetchError::NegativeArgErr));
    assert_eq!(parse_ids_lines(&vec!["-3".into(), "40".into()], "ids.txt"), Ok(vec![-3, 40]));
    assert_eq!(
        parse_ids_lines(&vec!["4".into(), "x".into(), "y".into()], "ids.txt"),
        Err(DestinyFetchError::ParseIdErr("x".into(), "ids.txt".into()))
    );
    assert_eq!(
        collect_ids(&vec!["a".into(), "b".into()], &vec![Some(1), None], "f"),
        Err(DestinyFetchError::ParseIdErr("b".into(), "f".into()))
    );
}

#[test]
fn test_open_new_cache() {
    let exp = Cache::new_with_path("failpath".to_string());
    let test = Cache::open_with("failpath".to_string(), CacheFile::Unreadable, true).expect("failed to open Cache");
    assert_eq!(exp.path, test.path);
    assert_eq!(exp.data.len(), test.data.len());
    assert_eq!(exp.data.last_sync_at(), test.data.last_sync_at());
    assert_eq!(exp.data.last_sync_rows_written(), test.data.last_sync_rows_written());
}

#[test]
fn opening_a_cache() {
    assert!(matches!(
        Cache::open_with("p".into(), CacheFile::Unreadable, false),
        Err(DestinyFetchError::CachePathErr)
    ));
    assert!(matches!(
        Cache::open_with("p".into(), CacheFile::Unparsable, true),
        Err(DestinyFetchError::CachePathErr)
    ));
    let mut d = Cachedata::new();
    d.record_sync(Some(9), Some(3));
    let c = Cache::open_with("p".into(), CacheFile::Read(d), false).unwrap();
    assert_eq!(c.data.last_sync_at(), Some(9));
    assert_eq!(c.data.last_sync_rows_written(), Some(3));
}

#[test]
fn saved_searches_read_back() {
    let mut d = Cachedata::new();
    assert_eq!(d.new_save_name(), "stored_query_1");
    d.store_images("first".into(), vec![image(1)]);
    d.store_images("second".into(), vec![image(2), image(3)]);
    assert_eq!(d.new_save_name(), "stored_query_3");
    d.store_images("first".into(), vec![image(4)]);
    assert_eq!(d.len(), 2);
    assert_eq!(d.read_images("first"), Some(&vec![image(4)]));
    assert_eq!(d.read_images("second").map(|v| v.len()), Some(2));
    assert_eq!(d.read_images("third"), None);
    assert_eq!(d.searches()[0].0, "first");
}

#[test]
fn id_lines_read_as_std_parses_them() {
    let texts = [
        "0", "7", "+7", "-7", "-0", "+", "-", "", "65535", "65536", "+65535", "2147483647", "-2147483648",
        "2147483648", "-2147483649", "12a", "a12", " 1", "1 ", "١٢", "+-1", "-+1", "00042",
    ];
    for t in texts {
        let ours = ids_from_lines(&vec![t.to_string()]).ok().map(|v| v[0]);
        assert_eq!(ours, t.parse::<u16>().ok(), "u16 of {:?}", t);
        let ours = parse_ids_lines(&vec![t.to_string()], "f").ok().map(|v| v[0]);
        assert_eq!(ours, t.parse::<i32>().ok(), "i32 of {:?}", t);
    }
}
