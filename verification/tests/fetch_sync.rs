use destinypedia::fetch::rows::{Ext, ImageCategoryRow, Row, SubCategoryRow};
use destinypedia::fetch::sync::{
    category_members_request, database_needs_synced, database_size_equals, first_pageid,
    follow_continue, get_categories_sync_params, get_category_members_sync_params,
    get_images_sync_params, get_pages_sync_params, process_response, rows_total_fits, RowsError, SyncState,
    WriteCounter, CATEGORY_IMAGES_ID,
};
use destinypedia::fetch::error::DestinyFetchError;
use destinypedia::request::{Query, PARAMS};
use destinypedia::response::items::{CategoryInfoItem, ImageInfoItem};
use destinypedia::response::{CategoryInfo, ImageInfo, QueryResponse, QueryResult};
use destinypedia::NAMESPACE;

fn pairs_of(p: &PARAMS<Query>) -> Vec<(String, String)> {
    p.pairs()
}

fn pairs(v: &[(&str, &str)]) -> Vec<(String, String)> {
    v.iter().map(|(k, v)| (k.to_string(), v.to_string())).collect()
}

#[test]
fn sync_requests() {
    assert_eq!(
        pairs_of(&get_category_members_sync_params(363).unwrap()),
        pairs(&[
            ("action", "query"),
            ("gcmlimit", "max"),
            ("gcmnamespace", "14|6"),
            ("gcmpageid", "363"),
            ("generator", "categorymembers"),
            ("iiprop", "url|timestamp|dimensions|size|canonicaltitle"),
            ("prop", "imageinfo|categoryinfo"),
            ("format", "json"),
        ])
    );
    assert_eq!(
        pairs_of(&get_images_sync_params().unwrap()),
        pairs(&[
            ("action", "query"),
            ("gailimit", "max"),
            ("gaisort", "name"),
            ("generator", "allimages"),
            ("iiprop", "url|size|dimensions|timestamp"),
            ("prop", "imageinfo"),
            ("format", "json"),
        ])
    );
    assert_eq!(
        pairs_of(&get_categories_sync_params().unwrap()),
        pairs(&[
            ("action", "query"),
            ("cllimit", "max"),
            ("gaclimit", "max"),
            ("generator", "allcategories"),
            ("prop", "categories|categoryinfo"),
            ("format", "json"),
        ])
    );
    assert_eq!(
        pairs_of(&get_pages_sync_params().unwrap()),
        pairs(&[
            ("action", "query"),
            ("gaplimit", "20"),
            ("gapnamespace", "0"),
            ("generator", "allpages"),
            ("prop", "info|pageimages"),
            ("format", "json"),
        ])
    );
}

#[test]
fn sync_starts_at_the_images_category() {
    assert_eq!(first_pageid(None), CATEGORY_IMAGES_ID);
    assert_eq!(first_pageid(Some(33671)), 33671);
    assert!(matches!(category_members_request(-1), Err(DestinyFetchError::NegativeArgErr)));
    assert!(category_members_request(364).is_ok());
}

#[test]
fn continuation_is_followed() {
    let mut p = get_category_members_sync_params(363).unwrap();
    assert!(follow_continue(&mut p, Some(("gcmcontinue".into(), "file|abc".into()))));
    assert!(p.pairs().contains(&("gcmcontinue".to_string(), "file|abc".to_string())));
    let before = p.pairs();
    assert!(!follow_continue(&mut p, None));
    assert_eq!(p.pairs(), before);
}

fn result(pageid: i32, ns: NAMESPACE, title: &str) -> QueryResult {
    QueryResult {
        pageid,
        ns,
        title: title.to_string(),
        categories: None,
        categoryinfo: None,
        images: None,
        imageinfo: None,
        pageimages: None,
        info: None,
    }
}

fn category(pageid: i32, title: &str) -> QueryResult {
    let mut q = result(pageid, NAMESPACE::CATEGORY, title);
    q.categoryinfo = Some(CategoryInfo(CategoryInfoItem { size: Some(3), pages: Some(0), files: Some(2), subcats: Some(1) }));
    q
}

fn file(pageid: i32, title: &str) -> QueryResult {
    let mut q = result(pageid, NAMESPACE::FILE, title);
    q.imageinfo = Some(ImageInfo(vec![ImageInfoItem {
        canonicaltitle: Some(title.to_string()),
        size: Some(4096),
        width: Some(1),
        height: Some(2),
        url: Some("u".into()),
        timestamp: Some("2019-06-01T12:00:00Z".into()),
    }]));
    q
}

#[test]
fn response_into_rows() {
    let resp = QueryResponse {
        continue_: None,
        pageids: None,
        results: vec![category(10, "Category:Armor"), result(11, NAMESPACE::PAGE, "Page"), file(12, "File:A b.png")],
    };
    let (ids, rows) = process_response(resp, 364).unwrap();
    assert_eq!(ids, vec![10]);
    assert_eq!(rows.len(), 4);
    assert_eq!(rows[0], Row::SubCategory(SubCategoryRow { category_id: 364, subcategory_id: 10 }));
    match &rows[1] {
        Row::Categories(c) => assert_eq!((c.id, c.title.as_str(), c.files, c.subcats), (10, "Armor", 2, 1)),
        other => panic!("unexpected row {:?}", other),
    }
    assert_eq!(rows[2], Row::ImageCategory(ImageCategoryRow { image_id: 12, category_id: 364 }));
    match &rows[3] {
        Row::Images(i) => {
            assert_eq!(i.title, "A b.png");
            assert_eq!(i.size, 4);
            assert_eq!(i.timestamp, 1559390400);
            assert_eq!(i.extension, Ext::PNG);
        }
        other => panic!("unexpected row {:?}", other),
    }
}

#[test]
fn incomplete_results_fail_the_response() {
    let resp = QueryResponse {
        continue_: None,
        pageids: None,
        results: vec![file(12, "File:A.png"), result(13, NAMESPACE::CATEGORY, "Category:Empty")],
    };
    assert_eq!(process_response(resp, 1).unwrap_err(), RowsError::CategoryRow);
    let resp = QueryResponse { continue_: None, pageids: None, results: vec![result(14, NAMESPACE::FILE, "File:B.png")] };
    assert_eq!(process_response(resp, 1).unwrap_err(), RowsError::ImageRow);
    assert_eq!(RowsError::ImageRow.message(), "failed to convert image result into ImagesRow, missing imageinfo");
}

#[test]
fn writer_commits_in_batches() {
    let mut c = WriteCounter::new();
    let mut commits = 0;
    let counts = [100u64, 150, 60, 1, 299, 0, 5];
    for n in counts {
        if c.record(n, 300) {
            commits += 1;
            assert_eq!(c.insert_count, 0);
        }
        assert!(c.insert_count < 300);
    }
    assert_eq!(commits, 2);
    assert_eq!(c.finish(), counts.iter().sum::<u64>());
}

#[test]
fn single_row_inserts_commit_whole_batches() {
    let mut c = WriteCounter::new();
    let mut committed = Vec::new();
    let counts = [1u64, 1, 0, 1, 1, 1, 1, 0, 1];
    for n in counts {
        let before = c.total_insert_count;
        if c.record(n, 3) {
            committed.push(c.total_insert_count - before);
        }
        assert!(c.insert_count < 3);
    }
    assert_eq!(committed, vec![3, 3]);
    assert_eq!(c.insert_count, 1);
    assert_eq!(c.finish(), 7);
}

fn state() -> SyncState {
    SyncState {
        cache_exists: true,
        database_exists: true,
        last_sync_at: Some(1_000_000),
        last_sync_rows_written: Some(50),
        now: 1_000_000 + 1_209_599,
        database_rows: Some(50),
    }
}

#[test]
fn when_to_sync() {
    assert!(!database_needs_synced(&state()));
    let mut s = state();
    s.now = 1_000_000 + 1_209_600;
    assert!(database_needs_synced(&s));
    let mut s = state();
    s.database_rows = Some(49);
    assert!(database_needs_synced(&s));
    let mut s = state();
    s.database_rows = None;
    assert!(database_needs_synced(&s));
    let mut s = state();
    s.cache_exists = false;
    assert!(database_needs_synced(&s));
    let mut s = state();
    s.database_exists = false;
    assert!(database_needs_synced(&s));
    let mut s = state();
    s.last_sync_at = None;
    assert!(database_needs_synced(&s));
    let mut s = state();
    s.last_sync_rows_written = None;
    assert!(database_needs_synced(&s));
}

#[test]
fn database_size() {
    assert!(database_size_equals(10, &vec![Some(4), Some(3), Some(2), Some(1)]));
    assert!(!database_size_equals(11, &vec![Some(4), Some(3), Some(2), Some(1)]));
    assert!(!database_size_equals(7, &vec![Some(4), None, Some(2), Some(1)]));
}

#[test]
fn overflow_checks_before_counting() {
    let mut c = WriteCounter::new();
    assert!(c.can_record(u64::MAX));
    c.record(5, 10);
    assert!(c.can_record(u64::MAX - 5));
    assert!(!c.can_record(u64::MAX - 4));
    assert!(rows_total_fits(&vec![Some(1), Some(2), None, Some(i64::MAX)]));
    assert!(!rows_total_fits(&vec![Some(i64::MAX), Some(1)]));
    assert!(rows_total_fits(&vec![Some(i64::MIN), Some(i64::MAX)]));
}
