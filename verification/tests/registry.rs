use faas3::record::FunctionRecord;
use faas3::registry::{info_action, list_action, list_request, passes, select};
use faas3::request::{Body, Method};

fn record(name: &str, owner: &str, template: &str) -> FunctionRecord {
    FunctionRecord {
        name: name.to_string(),
        description: format!("about {}", name),
        url: None,
        content: format!("// {}", name),
        txn_hash: None,
        owner: owner.to_string(),
        object_id: String::new(),
        template: template.to_string(),
    }
}

fn mixed() -> Vec<FunctionRecord> {
    vec![
        record("a", "X", "deno"),
        record("b", "Y", "node"),
        record("c", "X", "node"),
        record("d", "Z", "deno"),
        record("e", "X", "deno"),
        record("a", "X", "deno"),
    ]
}

fn names(records: &[FunctionRecord]) -> Vec<String> {
    records.iter().map(|record| record.name.clone()).collect()
}

fn text(value: &str) -> Option<String> {
    Some(value.to_string())
}

#[test]
fn list_request_gets_the_functions() {
    let request = list_request();
    assert_eq!(request.method, Method::Get);
    assert_eq!(request.url, "https://faas3.deno.dev/api/functions");
    assert_eq!(request.body, Body::Empty);
}

#[test]
fn info_request_gets_one_function() {
    let request = info_action("foo".to_string());
    assert_eq!(request.method, Method::Get);
    assert_eq!(request.url, "https://faas3.deno.dev/api/functions/foo");
    assert_eq!(request.body, Body::Empty);
}

#[test]
fn info_request_leaves_the_name_as_it_is() {
    assert_eq!(info_action("a b/c?d".to_string()).url, "https://faas3.deno.dev/api/functions/a b/c?d");
    assert_eq!(info_action(String::new()).url, "https://faas3.deno.dev/api/functions/");
}

#[test]
fn passes_tests_each_filter_that_is_present() {
    let one = record("a", "X", "deno");
    assert!(passes(&one, &None, &None));
    assert!(passes(&one, &text("X"), &None));
    assert!(!passes(&one, &text("Y"), &None));
    assert!(passes(&one, &None, &text("deno")));
    assert!(!passes(&one, &None, &text("node")));
    assert!(passes(&one, &text("X"), &text("deno")));
    assert!(!passes(&one, &text("X"), &text("node")));
    assert!(!passes(&one, &text("Y"), &text("deno")));
    assert!(!passes(&one, &text("x"), &None));
}

#[test]
fn select_without_filters_keeps_everything_in_order() {
    let records = mixed();
    assert_eq!(select(&records, &None, &None), records);
}

#[test]
fn select_by_owner_keeps_exactly_that_owner_in_order() {
    let records = mixed();
    let kept = select(&records, &text("X"), &None);
    assert_eq!(kept, vec![records[0].clone(), records[2].clone(), records[4].clone(), records[5].clone()]);
    assert_eq!(names(&kept), ["a", "c", "e", "a"]);
}

#[test]
fn select_by_template_keeps_exactly_that_template_in_order() {
    let records = mixed();
    let kept = select(&records, &None, &text("node"));
    assert_eq!(kept, vec![records[1].clone(), records[2].clone()]);
}

#[test]
fn select_by_both_is_the_intersection() {
    let records = mixed();
    let both = select(&records, &text("X"), &text("deno"));
    assert_eq!(names(&both), ["a", "e", "a"]);
    let owner_then_template = select(&select(&records, &text("X"), &None), &None, &text("deno"));
    let template_then_owner = select(&select(&records, &None, &text("deno")), &text("X"), &None);
    assert_eq!(both, owner_then_template);
    assert_eq!(both, template_then_owner);
    let by_owner = select(&records, &text("X"), &None);
    let by_template = select(&records, &None, &text("deno"));
    for record in &records {
        assert_eq!(
            both.contains(record),
            by_owner.contains(record) && by_template.contains(record)
        );
    }
}

#[test]
fn select_with_no_match_is_empty() {
    let records = mixed();
    assert_eq!(select(&records, &text("nobody"), &None), vec![]);
    assert_eq!(select(&records, &text("Y"), &text("deno")), vec![]);
    assert_eq!(select(&Vec::new(), &text("X"), &None), vec![]);
}

#[test]
fn select_keeps_whole_records() {
    let mut full = record("f", "X", "deno");
    full.url = text("https://example.org/f");
    full.txn_hash = text("0xabc");
    full.object_id = "0x1".to_string();
    let records = vec![record("g", "Y", "deno"), full.clone()];
    assert_eq!(select(&records, &text("X"), &None), vec![full]);
}

#[test]
fn list_action_shows_name_template_owner() {
    let rows = list_action(mixed(), None, None);
    assert_eq!(
        rows,
        vec![
            ("a".to_string(), "deno".to_string(), "X".to_string()),
            ("b".to_string(), "node".to_string(), "Y".to_string()),
            ("c".to_string(), "node".to_string(), "X".to_string()),
            ("d".to_string(), "deno".to_string(), "Z".to_string()),
            ("e".to_string(), "deno".to_string(), "X".to_string()),
            ("a".to_string(), "deno".to_string(), "X".to_string()),
        ]
    );
}

#[test]
fn list_action_applies_the_filters() {
    let rows = list_action(mixed(), text("X"), text("node"));
    assert_eq!(rows, vec![("c".to_string(), "node".to_string(), "X".to_string())]);
    let rows = list_action(mixed(), text("Z"), None);
    assert_eq!(rows, vec![("d".to_string(), "deno".to_string(), "Z".to_string())]);
    let rows = list_action(mixed(), None, text("python"));
    assert_eq!(rows, vec![]);
    let rows = list_action(Vec::new(), None, None);
    assert_eq!(rows, vec![]);
}

#[test]
fn duplicate_copies_every_field() {
    let mut full = record("f", "X", "deno");
    full.url = text("https://example.org/f");
    full.txn_hash = text("0xabc");
    full.object_id = "0x1".to_string();
    assert_eq!(full.duplicate(), full);
    let bare = record("g", "Y", "node");
    assert_eq!(bare.duplicate(), bare);
}
