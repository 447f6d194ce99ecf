use destinypedia::request::param_map::{ParamMap, ParamValue};
use destinypedia::request::query::{join_ids, join_namespaces, join_props};
use destinypedia::request::{
    Action, Format, GcmIdentifier, Generator, Limit, ParamsBuilder, Prop, Query, PARAMS,
};
use destinypedia::text::join_pipe;
use destinypedia::NAMESPACE;

fn text_of(m: &ParamMap, key: &str) -> Option<String> {
    m.get(key).map(|v| v.to_text())
}

fn entries_of(m: &ParamMap) -> Vec<(String, String)> {
    (0..m.len())
        .map(|i| {
            let (k, v) = m.entry(i);
            (k.clone(), v.to_text())
        })
        .collect()
}

fn pairs(v: &[(&str, &str)]) -> Vec<(String, String)> {
    v.iter().map(|(k, v)| (k.to_string(), v.to_string())).collect()
}

#[test]
fn params_test_chain_builder() {
    let params: PARAMS<Query> = PARAMS::build()
        .with_pageids(vec![300, 400, 500])
        .with_props(vec![Prop::PageImages, Prop::Info])
        .with_format(Format::XmlFm)
        .build()
        .unwrap();
    assert_eq!(
        params.pairs(),
        pairs(&[
            ("action", "query"),
            ("pageids", "300|400|500"),
            ("prop", "pageimages|info"),
            ("format", "xmlfm"),
        ])
    );
}

#[test]
fn params_test_inplace_builder() {
    let mut builder: ParamsBuilder<Query> = ParamsBuilder::new();
    builder.append_titles(vec!["oneTitle".to_string(), "twoTitle".to_string()]);
    builder.append_props(vec![Prop::Images, Prop::ImageInfo]);
    builder.replace_or_remove_titles(Some(vec!["redTitle".to_string(), "blueTitle".to_string()]));
    builder.set_continue("continue".to_string(), "someValue".to_string());
    builder.set_continue("continue".to_string(), "actualValue".to_string());
    let params: PARAMS<Query> = builder.build().unwrap();
    assert_eq!(params.params().len(), 4);
    assert_eq!(
        entries_of(params.params()),
        pairs(&[
            ("action", "query"),
            ("continue", "actualValue"),
            ("prop", "images|imageinfo"),
            ("titles", "redTitle|blueTitle"),
        ])
    );
}

#[test]
fn test_mixed_builder() {
    let mut builder: ParamsBuilder<Query> = PARAMS::build()
        .with_props(vec![Prop::ImageInfo])
        .with_continue("remove".to_string(), "later".to_string());
    builder.set_format(Format::Php);
    let g = Generator::allimages_with(Some("prefix".to_string()), None);
    builder.set_generator(g);
    let mut params: PARAMS<Query> = builder.build().unwrap();
    assert!(params.remove_continue("remove").is_some());
    assert_eq!(
        params.pairs(),
        pairs(&[
            ("action", "query"),
            ("gailimit", "20"),
            ("gaiprefix", "prefix"),
            ("generator", "allimages"),
            ("prop", "imageinfo"),
            ("format", "php"),
        ])
    );
}

fn query_success_entries() -> ParamMap {
    let q = Query {
        titles: Some(vec!["simpleTitle".to_string(), "anotherOne".to_string()]),
        pageids: None,
        prop: Some(vec![Prop::Info, Prop::CategoryInfo, Prop::ImageInfo]),
        generator: None,
        indexpageids: false,
        cont: None,
    };
    let mut m = ParamMap::new();
    q.write_entries(&mut m);
    m
}

#[test]
fn query_objs_test_query_success() {
    let m = query_success_entries();
    assert_eq!(m.len(), 3);
    assert_eq!(text_of(&m, "action").as_deref(), Some("query"));
    assert_eq!(text_of(&m, "titles").as_deref(), Some("simpleTitle|anotherOne"));
    assert_eq!(text_of(&m, "prop").as_deref(), Some("info|categoryinfo|imageinfo"));
}

#[test]
fn query_test_query_success() {
    let m = query_success_entries();
    assert_eq!(m.len(), 3);
    assert_eq!(text_of(&m, "action").as_deref(), Some("query"));
    assert_eq!(text_of(&m, "titles").as_deref(), Some("simpleTitle|anotherOne"));
    assert_eq!(text_of(&m, "prop").as_deref(), Some("info|categoryinfo|imageinfo"));
}

fn generator_success_entries() -> ParamMap {
    let g = Generator::CategoryMembers {
        identifier: GcmIdentifier::GcmTitle("Category:Test".to_string()),
        gcmnamespace: Some(vec![NAMESPACE::CATEGORY, NAMESPACE::PAGE]),
        gcmlimit: Limit::Max,
    };
    let mut m = ParamMap::new();
    g.write_entries(&mut m);
    m
}

#[test]
fn query_objs_test_generator_success() {
    let m = generator_success_entries();
    assert_eq!(m.len(), 4);
    assert_eq!(text_of(&m, "generator").as_deref(), Some("categorymembers"));
    assert_eq!(text_of(&m, "gcmtitle").as_deref(), Some("Category:Test"));
    assert_eq!(text_of(&m, "gcmnamespace").as_deref(), Some("14|0"));
    assert_eq!(text_of(&m, "gcmlimit").as_deref(), Some("max"));
}

#[test]
fn query_test_generator_success() {
    let m = generator_success_entries();
    assert_eq!(m.len(), 4);
    assert_eq!(text_of(&m, "generator").as_deref(), Some("categorymembers"));
    assert_eq!(text_of(&m, "gcmtitle").as_deref(), Some("Category:Test"));
    assert_eq!(text_of(&m, "gcmnamespace").as_deref(), Some("14|0"));
    assert_eq!(text_of(&m, "gcmlimit").as_deref(), Some("max"));
}

fn generator_constructor_entries() -> ParamMap {
    let g = Generator::allimages_with(None, Some(Limit::Num(20)));
    let mut m = ParamMap::new();
    g.write_entries(&mut m);
    m
}

#[test]
fn query_objs_test_generator_constructor() {
    let m = generator_constructor_entries();
    assert_eq!(
        entries_of(&m),
        pairs(&[("gailimit", "20"), ("generator", "allimages")])
    );
}

#[test]
fn query_test_generator_constructor() {
    let m = generator_constructor_entries();
    assert_eq!(
        entries_of(&m),
        pairs(&[("gailimit", "20"), ("generator", "allimages")])
    );
}

#[test]
fn helpers_test_liststring_adapter_success1() {
    assert_eq!(join_pipe(&vec!["oneprop".to_string(), "twoprop".to_string()]), "oneprop|twoprop");
}

#[test]
fn ser_types_test_liststring_adapter_success1() {
    assert_eq!(join_pipe(&vec!["oneprop".to_string(), "twoprop".to_string()]), "oneprop|twoprop");
}

#[test]
fn helpers_test_liststring_adapter_success2() {
    let v = vec![NAMESPACE::PAGE, NAMESPACE::DESTINYPEDIA, NAMESPACE::FILE];
    assert_eq!(join_namespaces(&v), "0|4|6");
}

#[test]
fn ser_types_test_liststring_adapter_success2() {
    let v = vec![NAMESPACE::PAGE, NAMESPACE::DESTINYPEDIA, NAMESPACE::FILE];
    assert_eq!(join_namespaces(&v), "0|4|6");
}

#[test]
fn helpers_test_liststring_adapter_success3() {
    assert_eq!(join_props(&vec![Prop::Info, Prop::PageImages]), "info|pageimages");
}

#[test]
fn ser_types_test_liststring_adapter_success3() {
    assert_eq!(join_props(&vec![Prop::Info, Prop::PageImages]), "info|pageimages");
}

#[test]
fn helpers_test_liststring_adapter_success4() {
    assert_eq!(join_props(&vec![Prop::ImageInfo]), "imageinfo");
}

#[test]
fn ser_types_test_liststring_adapter_success4() {
    assert_eq!(join_props(&vec![Prop::ImageInfo]), "imageinfo");
}

#[test]
fn page_ids_join_in_decimal() {
    assert_eq!(join_ids(&vec![0, 7, 4294967295]), "0|7|4294967295");
    assert_eq!(join_ids(&vec![]), "");
}

#[test]
fn pageids_drop_titles() {
    let params = PARAMS::<Query>::build()
        .with_titles(vec!["A".to_string()])
        .with_pageids(vec![1, 2])
        .build()
        .unwrap();
    assert!(params.params().get("titles").is_none());
    assert_eq!(text_of(params.params(), "pageids").as_deref(), Some("1|2"));
}

#[test]
fn extras_override_action_entries() {
    let params = PARAMS::<Query>::build()
        .with_props(vec![Prop::Info])
        .with_extra("prop".to_string(), ParamValue::Text("images".to_string()))
        .with_extra("cllimit".to_string(), ParamValue::Number(5))
        .build()
        .unwrap();
    assert_eq!(text_of(params.params(), "prop").as_deref(), Some("images"));
    assert_eq!(text_of(params.params(), "cllimit").as_deref(), Some("5"));
}

#[test]
fn update_continue_reads_back_and_returns_json_of_old_value() {
    let mut params = PARAMS::<Query>::build()
        .with_continue("gcmcontinue".to_string(), "page|A".to_string())
        .build()
        .unwrap();
    let prev = params.update_continue("gcmcontinue".to_string(), "page|B".to_string());
    assert_eq!(prev.as_deref(), Some("\"page|A\""));
    assert_eq!(text_of(params.params(), "gcmcontinue").as_deref(), Some("page|B"));
    let none = params.update_continue("continue".to_string(), "-||".to_string());
    assert_eq!(none, None);
    assert_eq!(params.remove_continue("continue").as_deref(), Some("\"-||\""));
    assert!(params.params().get("continue").is_none());
    assert_eq!(params.remove_continue("continue"), None);
}

#[test]
fn limits_over_500_are_max() {
    assert_eq!(Limit::Num(500).text(), "500");
    assert_eq!(Limit::Num(501).text(), "max");
    assert_eq!(Limit::Max.text(), "max");
    assert_eq!(Limit::or_default(None).text(), "20");
}

#[test]
fn formats_default_to_json() {
    let params = PARAMS::<Query>::build().build().unwrap();
    assert_eq!(params.format(), Format::Json);
    assert_eq!(params.pairs(), pairs(&[("action", "query"), ("format", "json")]));
    assert_eq!(Format::Nothing.name(), "none");
}

#[test]
fn param_map_keeps_keys_sorted() {
    let mut m = ParamMap::new();
    m.insert("b".to_string(), ParamValue::Flag(true));
    m.insert("a".to_string(), ParamValue::Number(1));
    m.insert("c".to_string(), ParamValue::Text("x".to_string()));
    let old = m.insert("b".to_string(), ParamValue::Flag(false));
    assert_eq!(old.map(|v| v.to_text()).as_deref(), Some("true"));
    assert_eq!(entries_of(&m), pairs(&[("a", "1"), ("b", "false"), ("c", "x")]));
    assert!(m.remove("a").is_some());
    assert!(!m.contains_key("a"));
    assert_eq!(m.len(), 2);
}

#[test]
fn json_text_of_replaced_values_escapes() {
    let mut params = PARAMS::<Query>::build()
        .with_continue("c".to_string(), "a\"b\\c\n\u{1}é".to_string())
        .build()
        .unwrap();
    let prev = params.update_continue("c".to_string(), "x".to_string());
    assert_eq!(prev.as_deref(), Some("\"a\\\"b\\\\c\\n\\u0001é\""));
}
