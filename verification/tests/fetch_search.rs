use destinypedia::fetch::cli::{DetailLevel, ResultType, SearchArgs};
use destinypedia::fetch::rows::{CategoriesRow, Ext, ImagesRow};
use destinypedia::fetch::search::{
    construct_category_images_query, construct_ids_insert, construct_titles_insert,
    category_lines, construct_categories_query, construct_images_query, fetch_limit, found_rows,
    image_lines, search_pattern,
};

fn simple_image_search() -> SearchArgs {
    SearchArgs {
        search: "Hive".into(),
        result_type: ResultType { images: true, categories: false, all: false },
        in_category: None,
        output: None,
        limit: None,
        detail_level: Some(DetailLevel { titles: true, ids: false, default: false, detailed: false }),
        ftype: None,
        maxsize: None,
        minsize: None,
        before: None,
        after: None,
        maxwidth: None,
        minwidth: None,
        maxheight: None,
        minheight: None,
        maxpixels: None,
        minpixels: None,
    }
}

#[test]
fn test_simple_sql1() {
    let args: SearchArgs = simple_image_search();
    let test = construct_images_query(&args);
    let exp = "SELECT * FROM images WHERE LOWER(title) LIKE ? ORDER BY title";
    assert_eq!(test.into_sql(), exp);
}

#[test]
fn images_query_with_every_filter() {
    let mut args = simple_image_search();
    args.in_category = Some("Images of Hive".into());
    args.ftype = Some(vec![Ext::PNG, Ext::JPG]);
    args.minsize = Some(10);
    args.maxsize = Some(5000);
    args.after = Some(1608854400);
    args.minwidth = Some(1080);
    args.maxheight = Some(920);
    args.maxpixels = Some(1000000);
    args.limit = Some(5);
    let sql = construct_images_query(&args).into_sql();
    let exp = "SELECT * FROM images WHERE LOWER(title) LIKE ? AND EXISTS (
            SELECT 1
            FROM image_categories as ic
            JOIN categories ON categories.id  = ic.category_id
            WHERE ic.image_id = images.id AND categories.title = ?
)AND extension IN (?, ?) AND size_ BETWEEN ? AND ?AND timestamp_ >= ?AND width >= ?AND height <= ?AND width * height <= ? ORDER BY title LIMIT ?";
    assert_eq!(sql, exp);
}

#[test]
fn negative_limit_is_ignored() {
    let mut args = simple_image_search();
    args.limit = Some(-1);
    assert_eq!(
        construct_images_query(&args).into_sql(),
        "SELECT * FROM images WHERE LOWER(title) LIKE ? ORDER BY title"
    );
    assert_eq!(fetch_limit(&args), -1);
    args.limit = None;
    assert_eq!(fetch_limit(&args), 500);
}

#[test]
fn categories_query() {
    let mut args = simple_image_search();
    assert_eq!(
        construct_categories_query(&args).into_sql(),
        "SELECT * FROM categories WHERE LOWER(title) LIKE ?ORDER BY title"
    );
    args.limit = Some(3);
    assert_eq!(
        construct_categories_query(&args).into_sql(),
        "SELECT * FROM categories WHERE LOWER(title) LIKE ?ORDER BY title LIMIT ??"
    );
}

#[test]
fn search_pattern_wraps_in_percent_signs() {
    assert_eq!(search_pattern("exotic"), "%exotic%");
    assert_eq!(found_rows::<i32>(vec![]), None);
    assert_eq!(found_rows(vec![1]), Some(vec![1]));
}

fn image_row() -> ImagesRow {
    ImagesRow {
        id: 42,
        title: "Hive.png".to_string(),
        size: 120,
        width: 640,
        height: 480,
        url: "https://example.org/Hive.png".to_string(),
        timestamp: 0,
        extension: Ext::PNG,
    }
}

#[test]
fn image_lines_by_detail() {
    let rows = vec![image_row()];
    assert_eq!(image_lines(&rows, &None), vec![format!("({:<8}) {:<30}, {:<4}x{:<4}, {:<10}KiB, {:<5}", 42, "Hive.png", 640, 480, 120, "png")]);
    let titles = Some(DetailLevel { titles: true, ids: false, default: false, detailed: false });
    assert_eq!(image_lines(&rows, &titles), vec!["Hive.png".to_string()]);
    let ids = Some(DetailLevel { titles: false, ids: true, default: false, detailed: false });
    assert_eq!(image_lines(&rows, &ids), vec!["42".to_string()]);
    let detailed = Some(DetailLevel { titles: false, ids: false, default: false, detailed: true });
    assert_eq!(
        image_lines(&rows, &detailed),
        vec![format!(
            "{:<5}, {:<30}, {:<5}, {:<5}, {:<10}, {:<4}, {}",
            42, "Hive.png", 640, 480, 120, "png", "https://example.org/Hive.png"
        )]
    );
}

#[test]
fn category_lines_by_detail() {
    let rows = vec![CategoriesRow { id: 7, title: "Hive".to_string(), files: 12, subcats: 3 }];
    assert_eq!(
        category_lines(&rows, &None),
        vec![format!("{:<30}, images{:<4}, subcategories{:<4}", "Hive", 12, 3)]
    );
    let ids = Some(DetailLevel { titles: false, ids: true, default: false, detailed: false });
    assert_eq!(category_lines(&rows, &ids), vec!["7".to_string()]);
    let titles = Some(DetailLevel { titles: true, ids: false, default: false, detailed: false });
    assert_eq!(category_lines(&rows, &titles), vec!["Hive".to_string()]);
    let detailed = Some(DetailLevel { titles: false, ids: false, default: false, detailed: true });
    assert_eq!(
        category_lines(&rows, &detailed),
        vec![format!("{:<5}, {:<30}, {:<3}, {:<3}", 7, "Hive", 12, 3)]
    );
}

#[test]
fn result_types() {
    let all = ResultType { images: false, categories: false, all: true };
    assert!(all.wants_images() && all.wants_categories());
    let images = ResultType { images: true, categories: false, all: false };
    assert!(images.wants_images() && !images.wants_categories());
}

#[test]
fn download_checks_store_titles_and_ids() {
    let titles = vec!["Hive".to_string(), "Fallen".to_string()];
    assert_eq!(
        construct_titles_insert(&titles).into_sql(),
        "INSERT OR IGNORE INTO temp_titles(title) VALUES (?), (?)"
    );
    assert_eq!(
        construct_ids_insert(&vec![4, -2, 9, -1]).into_sql(),
        "INSERT OR IGNORE INTO temp_ids(id) VALUES (?), (?)"
    );
    assert_eq!(construct_ids_insert(&vec![7]).into_sql(), "INSERT OR IGNORE INTO temp_ids(id) VALUES (?)");
    assert_eq!(construct_ids_insert(&vec![-7]).into_sql(), "INSERT OR IGNORE INTO temp_ids(id) VALUES ");
}

#[test]
fn images_of_a_category() {
    let sql = construct_category_images_query("Hive").into_sql();
    assert!(sql.starts_with("SELECT * FROM images WHERE EXISTS ("));
    assert!(sql.contains("JOIN categories ON categories.id = ic.category_id"));
    assert!(sql.ends_with("categories.title = ? )"));
}
