use variant_reviews::order::OrderLineItem;
use variant_reviews::report::{render_bucket, render_list, VariantReport};

fn text(s: &str) -> String {
    s.to_string()
}

fn items(pairs: &[(&str, &str)]) -> Vec<OrderLineItem> {
    pairs.iter().map(|(sku, product)| OrderLineItem::new(sku, product)).collect()
}

fn contents(report: &VariantReport) -> Vec<(String, Vec<String>)> {
    (0..report.len())
        .map(|i| (report.sku_at(i).clone(), report.review_ids_at(i).clone()))
        .collect()
}

#[test]
fn new_report_is_empty() {
    let report = VariantReport::new();
    assert!(report.is_empty());
    assert_eq!(report.len(), 0);
    assert!(report.get(&text("A")).is_none());
    assert_eq!(report.render(), "{}");
}

#[test]
fn record_creates_a_bucket_and_appends_to_it() {
    let mut report = VariantReport::new();
    report.record(&text("A"), &text("r1"));
    report.record(&text("B"), &text("r2"));
    report.record(&text("A"), &text("r3"));
    assert_eq!(
        contents(&report),
        vec![(text("A"), vec![text("r1"), text("r3")]), (text("B"), vec![text("r2")])]
    );
    assert_eq!(report.get(&text("A")), Some(&vec![text("r1"), text("r3")]));
    assert_eq!(report.get(&text("B")), Some(&vec![text("r2")]));
    assert_eq!(report.position(&text("B")), Some(1));
    assert_eq!(report.position(&text("C")), None);
    assert!(!report.is_empty());
}

#[test]
fn ingest_takes_the_first_item_of_the_product() {
    let mut report = VariantReport::new();
    report.ingest(&text("PID"), &text("r1"), &items(&[("B", "OTHER"), ("C", "PID"), ("D", "PID")]));
    assert_eq!(contents(&report), vec![(text("C"), vec![text("r1")])]);
    assert!(report.get(&text("B")).is_none());
    assert!(report.get(&text("D")).is_none());
}

#[test]
fn ingest_without_item_of_the_product_changes_nothing() {
    let mut report = VariantReport::new();
    report.record(&text("A"), &text("r0"));
    report.ingest(&text("PID"), &text("r1"), &items(&[("B", "OTHER")]));
    report.ingest(&text("PID"), &text("r2"), &Vec::new());
    assert_eq!(contents(&report), vec![(text("A"), vec![text("r0")])]);
}

#[test]
fn ingest_changes_exactly_one_bucket() {
    let mut report = VariantReport::new();
    report.record(&text("A"), &text("r0"));
    report.record(&text("C"), &text("r1"));
    report.ingest(&text("PID"), &text("r2"), &items(&[("C", "PID"), ("A", "PID")]));
    assert_eq!(
        contents(&report),
        vec![(text("A"), vec![text("r0")]), (text("C"), vec![text("r1"), text("r2")])]
    );
}

#[test]
fn repeated_review_id_is_recorded_again() {
    let mut report = VariantReport::new();
    report.ingest(&text("PID"), &text("r"), &items(&[("A", "PID")]));
    report.ingest(&text("PID"), &text("r"), &items(&[("A", "PID")]));
    assert_eq!(contents(&report), vec![(text("A"), vec![text("r"), text("r")])]);
}

#[test]
fn report_is_rendered_with_quoted_texts() {
    let mut report = VariantReport::new();
    report.record(&text("A"), &text("r1"));
    report.record(&text("C"), &text("r3"));
    report.record(&text("A"), &text("r4"));
    assert_eq!(report.render(), r#"{"A": ["r1", "r4"], "C": ["r3"]}"#);
}

#[test]
fn special_characters_are_escaped_in_the_rendering() {
    let mut report = VariantReport::new();
    report.record(&text("a\"b"), &text("line\nbreak"));
    assert_eq!(report.render(), r#"{"a\"b": ["line\nbreak"]}"#);
}

#[test]
fn lists_and_buckets_are_rendered() {
    assert_eq!(render_list(&Vec::new()), "");
    assert_eq!(render_list(&vec![text("x")]), r#""x""#);
    assert_eq!(render_list(&vec![text("x"), text("y")]), r#""x", "y""#);
    assert_eq!(render_bucket(&text("S"), &vec![text("x"), text("y")]), r#""S": ["x", "y"]"#);
}

#[test]
fn buckets_are_listed_in_the_order_of_their_creation() {
    let mut report = VariantReport::new();
    report.record(&text("B"), &text("r1"));
    report.record(&text("A"), &text("r2"));
    report.record(&text("B"), &text("r3"));
    let listed = report.buckets();
    assert_eq!(listed.len(), 2);
    assert_eq!(listed[0].sku, "B");
    assert_eq!(listed[0].review_ids, vec![text("r1"), text("r3")]);
    assert_eq!(listed[1].sku, "A");
    assert_eq!(listed[1].review_ids, vec![text("r2")]);
}
