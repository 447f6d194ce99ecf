use destinypedia::models::query::{List, Prop, Query, QueryField};
use destinypedia::models::traits::ActionType;

fn construct_unvalidated_query() -> Query {
    Query::new()
        .titles(vec!["Example title".to_string(), "Another example title".to_string()])
        .pageids(&[1333, 892, 999])
        .prop(Prop::Categories)
}

fn construct_valid_query() -> Query {
    match construct_unvalidated_query().validate() {
        Ok(q) => q,
        Err(_) => panic!("query should be valid"),
    }
}

#[test]
fn test_validate_func_success() {
    assert!(construct_unvalidated_query().validate().is_ok())
}

#[test]
fn test_validate_func_fail1() {
    // should fail because both prop and list are initialized
    let q = construct_unvalidated_query().list(List::AllLinks);
    assert!(q.validate().is_err())
}

#[test]
fn test_validate_func_fail2() {
    // should fail because both titles and pageids are empty
    let q = construct_unvalidated_query().titles(vec![]).pageids(&[]);
    assert!(q.validate().is_err())
}

#[test]
fn test_query_serialize_success1() {
    let fields = construct_valid_query().serialized_fields();
    assert_eq!(fields.len(), 2);
}

#[test]
fn test_query_serialize_success2() {
    let fields = construct_valid_query().serialized_fields();
    assert!(matches!(&fields[0], QueryField::PageIds(v) if v == &vec![1333, 892, 999]));
    assert!(matches!(&fields[1], QueryField::Prop(Some(Prop::Categories))));
}

#[test]
fn list_alone_is_written() {
    let q = Query::new().list(List::AllPages);
    let fields = q.serialized_fields();
    assert_eq!(fields.len(), 1);
    assert!(matches!(&fields[0], QueryField::List(List::AllPages)));
}

#[test]
fn titles_written_when_no_pageids() {
    let q = Query::new().titles(vec!["A".to_string()]).prop(Prop::Info);
    assert!(q.is_valid());
    let fields = q.serialized_fields();
    assert!(matches!(&fields[0], QueryField::Titles(v) if v == &vec!["A".to_string()]));
}

#[test]
fn query_without_output_is_invalid() {
    let q = Query::new().titles(vec!["A".to_string()]);
    assert!(!q.is_valid());
    assert!(!q.has_prop());
    assert!(!q.has_list());
    assert!(matches!(q.validate(), Err(destinypedia::error::Error::Args)));
    assert_eq!(destinypedia::error::Error::Args.message(), "Error parsing cli arguments");
}
