use destinypedia::fetch::error::{DatabaseError, DestinyFetchError, UserError};
use destinypedia::fetch::rows::{CategoriesRow, Ext, ImagesRow};
use destinypedia::response::items::{CategoryInfoItem, ImageInfoItem};
use destinypedia::response::{CategoryInfo, ImageInfo, QueryResult};
use destinypedia::NAMESPACE;

fn result(pageid: i32, ns: NAMESPACE, title: &str) -> QueryResult {
    QueryResult {
        pageid,
        ns,
        title: title.to_string(),
        categories: None,
        categoryinfo: None,
        images: None,
        imageinfo: None,
        pageimages: None,
        info: None,
    }
}

fn image_item(title: &str, size: u32, ts: &str) -> ImageInfoItem {
    ImageInfoItem {
        canonicaltitle: Some(title.to_string()),
        size: Some(size),
        width: Some(3840),
        height: Some(2160),
        url: Some("https://destiny.wiki.gallery/images/f/f7/Clash_of_the_Hive_Gods.jpg".to_string()),
        timestamp: Some(ts.to_string()),
    }
}

#[test]
fn ext_from_text_ignores_case() {
    assert_eq!(Ext::from_text("PNG"), Ext::PNG);
    assert_eq!(Ext::from_text("Jpeg"), Ext::JPG);
    assert_eq!(Ext::from_text("jpg"), Ext::JPG);
    assert_eq!(Ext::from_text("webp"), Ext::WEBP);
    assert_eq!(Ext::from_text("MP3"), Ext::MP3);
    assert_eq!(Ext::from_text("mp4"), Ext::MP4);
    assert_eq!(Ext::from_text("tiff"), Ext::UNKNOWN);
    assert_eq!(Ext::from_text(""), Ext::UNKNOWN);
}

#[test]
fn gif_is_filed_as_svg() {
    assert_eq!(Ext::from_text("gif"), Ext::SVG);
    assert_eq!(Ext::from_text("svg"), Ext::SVG);
}

#[test]
fn ext_from_string_and_str() {
    let e: Ext = Ext::from("JPEG".to_string());
    assert_eq!(e, Ext::JPG);
    let parsed: Result<Ext, DestinyFetchError> = "png".parse();
    assert_eq!(parsed, Ok(Ext::PNG));
}

#[test]
fn ext_of_a_file_name() {
    assert_eq!(Ext::as_ext("File:Clash of the Hive Gods.jpg"), Ext::JPG);
    assert_eq!(Ext::as_ext("archive.tar.PNG"), Ext::PNG);
    assert_eq!(Ext::as_ext("no extension"), Ext::UNKNOWN);
    assert_eq!(Ext::as_ext("trailing."), Ext::UNKNOWN);
}

#[test]
fn ext_texts_read_back() {
    let all = [Ext::PNG, Ext::JPG, Ext::SVG, Ext::GIF, Ext::MP4, Ext::MP3, Ext::WEBP, Ext::UNKNOWN];
    for e in all {
        let parsed: Result<Ext, DestinyFetchError> = e.to_text().parse();
        let expected = if e == Ext::GIF { Ext::SVG } else { e };
        assert_eq!(parsed, Ok(expected));
        assert_eq!(Ext::from_text(&e.to_text().to_uppercase()), expected);
    }
}

#[test]
fn ext_texts() {
    assert_eq!(Ext::WEBP.to_text(), "webp");
    assert_eq!(Ext::UNKNOWN.to_text(), "unknown");
    assert_eq!(Ext::WEBP.db_text(), "WEBP");
}

#[test]
fn images_row_from_result() {
    let mut q = result(39300, NAMESPACE::FILE, "File:Clash of the Hive Gods.jpg");
    q.imageinfo = Some(ImageInfo(vec![image_item("File:Clash of the Hive Gods.jpg", 523694, "2026-04-12T04:03:19Z")]));
    let row = ImagesRow::try_from(q).expect("complete image info");
    assert_eq!(row.id, 39300);
    assert_eq!(row.title, "Clash of the Hive Gods.jpg");
    assert_eq!(row.size, 511);
    assert_eq!(row.width, 3840);
    assert_eq!(row.height, 2160);
    assert_eq!(row.timestamp, 1775966599);
    assert_eq!(row.extension, Ext::JPG);
}

#[test]
fn images_row_needs_every_field() {
    let mut q = result(1, NAMESPACE::FILE, "File:A.png");
    let mut item = image_item("File:A.png", 2048, "2026-04-12T04:03:19Z");
    item.url = None;
    q.imageinfo = Some(ImageInfo(vec![item]));
    assert_eq!(ImagesRow::try_from(q), Err(DatabaseError::IntoRowConvertError));
    let q2 = result(1, NAMESPACE::FILE, "File:A.png");
    assert_eq!(ImagesRow::try_from(q2), Err(DatabaseError::IntoRowConvertError));
    let mut q3 = result(1, NAMESPACE::FILE, "File:A.png");
    q3.imageinfo = Some(ImageInfo(vec![]));
    assert_eq!(ImagesRow::try_from(q3), Err(DatabaseError::IntoRowConvertError));
}

#[test]
fn images_row_needs_a_readable_timestamp() {
    let mut q = result(1, NAMESPACE::FILE, "File:A.png");
    q.imageinfo = Some(ImageInfo(vec![image_item("File:A.png", 2048, "yesterday")]));
    assert_eq!(ImagesRow::try_from(q), Err(DatabaseError::IntoRowConvertError));
}

#[test]
fn categories_row_from_result() {
    let mut q = result(363, NAMESPACE::CATEGORY, "Category:Images of Hive");
    q.categoryinfo = Some(CategoryInfo(CategoryInfoItem {
        size: Some(2966),
        pages: Some(5),
        files: Some(2961),
        subcats: Some(0),
    }));
    let row = CategoriesRow::try_from(q).expect("complete category info");
    assert_eq!(row.id, 363);
    assert_eq!(row.title, "Images of Hive");
    assert_eq!(row.files, 2961);
    assert_eq!(row.subcats, 0);
}

#[test]
fn categories_row_keeps_unprefixed_title_and_needs_counts() {
    let mut q = result(5, NAMESPACE::CATEGORY, "Raids");
    q.categoryinfo = Some(CategoryInfo(CategoryInfoItem { size: None, pages: None, files: Some(1), subcats: Some(2) }));
    assert_eq!(CategoriesRow::try_from(q).unwrap().title, "Raids");
    let mut q2 = result(5, NAMESPACE::CATEGORY, "Category:Raids");
    q2.categoryinfo = Some(CategoryInfo(CategoryInfoItem { size: None, pages: None, files: Some(1), subcats: None }));
    assert_eq!(CategoriesRow::try_from(q2), Err(DatabaseError::IntoRowConvertError));
}

#[test]
fn error_messages() {
    assert_eq!(DestinyFetchError::Quit.message(), "User quit program");
    assert_eq!(DestinyFetchError::MissingArgErr.message(), "missing required argument");
    assert_eq!(
        DestinyFetchError::ParseIdErr("x1".to_string(), "ids.txt".to_string()).message(),
        "ERROR: While parsing input file x1, failed to parse ids.txt as i32."
    );
    assert_eq!(
        DestinyFetchError::RowError(DatabaseError::IntoRowConvertError).message(),
        "Error converting response::Item type into database::Row type"
    );
}

#[test]
fn user_error_reports() {
    let e = UserError::InvalidTitles(vec!["A".to_string(), "B".to_string()]);
    assert_eq!(e.message(), "Invalid titles: \n\tA\n\tB\n");
    let e = UserError::InvalidIds(vec![-3, 12]);
    assert_eq!(e.message(), "Invalid ids: \n\t-3\n\t12\n");
    let e = UserError::InvalidCategory("Raids".to_string());
    assert_eq!(e.message(), "Invalid category: Raids\n");
}
