use destinypedia::response::error::FromResultHelperError;
use destinypedia::response::items::{CategoryItem, ImageInfoItem, ImageItem, Item, PropResults};
use destinypedia::response::query_response::{
    IndiscriminateQueryHelper, QueryResponseHelper, QueryResultHelper,
};
use destinypedia::response::{Categories, Continue, ImageInfo, Images, QueryResponse, QueryResult};
use destinypedia::NAMESPACE;

fn helper(pageid: Option<i32>, ns: Option<NAMESPACE>, title: Option<&str>) -> QueryResultHelper {
    QueryResultHelper {
        pageid,
        ns,
        title: title.map(|t| t.to_string()),
        categories: None,
        categoryinfo: None,
        images: None,
        imageinfo: None,
        pageimages: None,
        info: None,
    }
}

fn empty_item() -> ImageInfoItem {
    ImageInfoItem { canonicaltitle: None, size: None, width: None, height: None, url: None, timestamp: None }
}

#[test]
fn results_need_id_namespace_and_title() {
    let r = QueryResult::try_from_helper(helper(Some(1), None, Some("A")));
    assert_eq!(r.unwrap_err(), FromResultHelperError::MissingField);
    let r = QueryResult::try_from_helper(helper(Some(1), Some(NAMESPACE::FILE), Some("File:A.png"))).unwrap();
    assert_eq!((r.pageid, r.ns, r.title.as_str()), (1, NAMESPACE::FILE, "File:A.png"));
}

#[test]
fn empty_property_results_are_dropped() {
    let mut h = helper(Some(1), Some(NAMESPACE::FILE), Some("File:A.png"));
    h.imageinfo = Some(ImageInfo(vec![empty_item(), empty_item()]));
    h.images = Some(Images(vec![ImageItem { ns: 6, title: "File:B.png".into() }]));
    h.categories = Some(Categories(vec![]));
    let r = QueryResult::try_from_helper(h).unwrap();
    assert!(r.imageinfo.is_none());
    assert!(r.categories.is_none());
    assert_eq!(r.images.map(|i| i.into_items().len()), Some(1));
}

#[test]
fn items_know_when_they_are_empty() {
    assert!(empty_item().is_empty());
    let mut i = empty_item();
    i.timestamp = Some("2020-01-01T00:00:00Z".into());
    assert!(!i.is_empty());
    assert!(!ImageInfo(vec![i]).empty());
    assert!(Categories(vec![]).empty());
    assert!(!CategoryItem { ns: NAMESPACE::CATEGORY, title: "Category:A".into() }.is_empty());
}

#[test]
fn responses_keep_only_results() {
    let helper_resp = QueryResponseHelper {
        continue_: Some(Continue {
            contin: "gcmcontinue||".into(),
            sub_cont: vec![("gcmcontinue".into(), "file|B|12".into())],
        }),
        query: IndiscriminateQueryHelper {
            pageids: Some(vec![12, 13]),
            pages: vec![
                ("12".into(), helper(Some(12), Some(NAMESPACE::FILE), Some("File:B.png"))),
                ("13".into(), helper(None, Some(NAMESPACE::FILE), Some("File:C.png"))),
            ],
        },
    };
    let r = QueryResponse::from_helper(helper_resp);
    assert_eq!(r.results.len(), 1);
    assert_eq!(r.results[0].pageid, 12);
    assert_eq!(r.pageids, Some(vec![12, 13]));
    let (k, v) = r.get_continue_tuple().unwrap();
    assert_eq!((k.as_str(), v.as_str()), ("gcmcontinue", "file|B|12"));
}

#[test]
fn continuation_pairs() {
    let c = Continue {
        contin: "-||".into(),
        sub_cont: vec![("gcmsort".into(), "x".into()), ("gcmcontinue".into(), "page|Y".into())],
    };
    assert_eq!(c.get_continue_pair(), Some(("gcmcontinue", "page|Y")));
    assert_eq!(c.into_tuple(), Some(("gcmcontinue".to_string(), "page|Y".to_string())));
    let none = Continue { contin: "-||".into(), sub_cont: vec![("gcmsort".into(), "x".into())] };
    assert_eq!(none.into_tuple(), None);
}

#[test]
fn namespace_codes() {
    assert_eq!(NAMESPACE::FILE.code(), 6);
    assert_eq!(NAMESPACE::try_from_code(14), Some(NAMESPACE::CATEGORY));
    assert_eq!(NAMESPACE::try_from_code(9), None);
    assert_eq!(NAMESPACE::GRIMOIRE.to_text(), "100");
}

#[test]
fn helper_error_messages() {
    assert_eq!(
        FromResultHelperError::MissingField.message(),
        "result helper is missing necessary fields (pageid, title, ns)"
    );
}
