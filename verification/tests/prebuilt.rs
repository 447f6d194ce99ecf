use destinypedia::prebuilt::{category_members, image_info, images, join_opts, page_images};
use destinypedia::request::param_map::ParamMap;

fn entries(m: &ParamMap) -> Vec<(String, String)> {
    (0..m.len())
        .map(|i| {
            let (k, v) = m.entry(i);
            (k.clone(), v.to_text())
        })
        .collect()
}

fn pairs(v: &[(&str, &str)]) -> Vec<(String, String)> {
    v.iter().map(|(k, v)| (k.to_string(), v.to_string())).collect()
}

#[test]
fn test_page_images_build() {
    let m = page_images(&vec!["Dreaming City".into(), "Black_Fleet".into()]);
    assert_eq!(
        entries(&m),
        pairs(&[
            ("action", "query"),
            ("format", "json"),
            ("piprop", "name|original"),
            ("prop", "pageimages"),
            ("titles", "Dreaming City|Black_Fleet"),
        ])
    );
}

#[test]
fn test_image_info_build() {
    let m = image_info(&vec!["Crota1.jpg".into(), "File:LoreUnviel.png".into()]);
    assert_eq!(
        entries(&m),
        pairs(&[
            ("action", "query"),
            ("format", "json"),
            ("iiprop", "canonicaltitle|url|size"),
            ("prop", "imageinfo"),
            ("titles", "File:Crota1.jpg|File:LoreUnviel.png"),
        ])
    );
}

#[test]
fn test_images_build() {
    let m = images(&vec!["Hive".into(), "Fallen".into()]);
    assert_eq!(
        entries(&m),
        pairs(&[
            ("action", "query"),
            ("format", "json"),
            ("imlimit", "max"),
            ("prop", "images"),
            ("titles", "Hive|Fallen"),
        ])
    );
}

#[test]
fn test_category_members_build() {
    let m = category_members(&vec!["Expansions".into(), "Category:Raids".into()]);
    assert_eq!(
        entries(&m),
        pairs(&[
            ("action", "query"),
            ("cmlimit", "max"),
            ("cmprop", "ids|title|type"),
            ("cmtitle", "Category:Expansions|Category:Raids"),
            ("cmtype", "file"),
            ("format", "json"),
            ("list", "categorymembers"),
        ])
    );
}

#[test]
fn join_opts_uses_pipes() {
    assert_eq!(join_opts(&vec!["a".into(), "b".into(), "c".into()]), "a|b|c");
    assert_eq!(join_opts(&vec![]), "");
}
