use variant_reviews::order::{Order, OrderLineItem, OrdersPage};
use variant_reviews::review::{Export, ProductReview};
use variant_reviews::run::{resolve_recorded, run_pipeline, RecordedResponse};

fn review(id: &str, order: Option<&str>) -> ProductReview {
    ProductReview {
        id: id.to_string(),
        order_number: order.map(|o| o.to_string()),
        title: String::new(),
        content: String::new(),
    }
}

fn export(reviews: Vec<ProductReview>) -> Export {
    Export { product_id: "PID".to_string(), reviews }
}

fn answered(order: &str, items: &[(&str, &str)]) -> RecordedResponse {
    let line_items = items.iter().map(|(sku, product)| OrderLineItem::new(sku, product)).collect();
    RecordedResponse {
        order_number: order.to_string(),
        response: Ok(OrdersPage { orders: vec![Order { line_items }] }),
    }
}

fn failing(order: &str) -> RecordedResponse {
    RecordedResponse { order_number: order.to_string(), response: Err("broken".to_string()) }
}

fn buckets(reviews: Vec<ProductReview>, recorded: &Vec<RecordedResponse>) -> Vec<(String, Vec<String>)> {
    let outcome = run_pipeline(export(reviews), recorded);
    (0..outcome.report.len())
        .map(|i| (outcome.report.sku_at(i).clone(), outcome.report.review_ids_at(i).clone()))
        .collect()
}

fn bucket(sku: &str, ids: &[&str]) -> (String, Vec<String>) {
    (sku.to_string(), ids.iter().map(|id| id.to_string()).collect())
}

#[test]
fn recorded_lookup_takes_the_first_response_for_an_order() {
    let recorded =
        vec![answered("1", &[("A", "PID")]), answered("2", &[("B", "PID")]), failing("2")];
    let first = resolve_recorded(&recorded, &"2".to_string()).unwrap();
    assert_eq!(first.len(), 1);
    assert_eq!(first[0].sku, "B");
    let unknown = resolve_recorded(&recorded, &"3".to_string()).unwrap();
    assert!(unknown.is_empty());
    let nothing = resolve_recorded(&Vec::new(), &"1".to_string()).unwrap();
    assert!(nothing.is_empty());
    let error = resolve_recorded(&vec![failing("9")], &"9".to_string()).unwrap_err();
    assert_eq!(error.order_number, "9");
    assert_eq!(error.cause, "broken");
}

#[test]
fn review_without_order_number_is_not_reported() {
    let recorded = vec![answered("1", &[("A", "PID")])];
    let with = buckets(vec![review("r1", Some("1")), review("r2", None)], &recorded);
    let without = buckets(vec![review("r1", Some("1"))], &recorded);
    assert_eq!(with, vec![bucket("A", &["r1"])]);
    assert_eq!(with, without);
}

#[test]
fn review_without_matching_item_is_not_reported_and_no_failure() {
    let recorded = vec![answered("1", &[("A", "PID")]), answered("2", &[("B", "OTHER")])];
    let outcome =
        run_pipeline(export(vec![review("r1", Some("1")), review("r2", Some("2"))]), &recorded);
    assert_eq!(outcome.report.len(), 1);
    assert_eq!(outcome.report.get(&"A".to_string()), Some(&vec!["r1".to_string()]));
    assert!(outcome.report.get(&"B".to_string()).is_none());
    assert!(outcome.failures.is_empty());
}

#[test]
fn review_of_unknown_order_is_not_reported_and_no_failure() {
    let outcome = run_pipeline(export(vec![review("r1", Some("404"))]), &Vec::new());
    assert!(outcome.report.is_empty());
    assert!(outcome.failures.is_empty());
}

#[test]
fn review_is_reported_once_under_the_first_matching_sku() {
    let recorded = vec![answered("1", &[("X", "OTHER"), ("B", "PID"), ("A", "PID")])];
    let reported = buckets(vec![review("r1", Some("1"))], &recorded);
    assert_eq!(reported, vec![bucket("B", &["r1"])]);
}

#[test]
fn buckets_keep_the_order_of_the_export() {
    let recorded = vec![
        answered("1", &[("B", "PID")]),
        answered("2", &[("A", "PID")]),
        answered("3", &[("B", "PID")]),
        answered("4", &[("A", "PID")]),
    ];
    let reported = buckets(
        vec![
            review("r1", Some("1")),
            review("r2", Some("2")),
            review("r3", Some("3")),
            review("r4", Some("4")),
        ],
        &recorded,
    );
    assert_eq!(reported, vec![bucket("B", &["r1", "r3"]), bucket("A", &["r2", "r4"])]);
}

#[test]
fn same_order_behind_two_reviews_is_looked_up_for_each() {
    let recorded = vec![answered("1", &[("A", "PID")])];
    let reported = buckets(vec![review("r1", Some("1")), review("r2", Some("1"))], &recorded);
    assert_eq!(reported, vec![bucket("A", &["r1", "r2"])]);
}

#[test]
fn rerun_gives_the_same_report() {
    let recorded = vec![
        answered("1", &[("A", "PID")]),
        failing("2"),
        answered("3", &[("C", "PID"), ("A", "PID")]),
    ];
    let reviews = || {
        vec![review("r1", Some("1")), review("r2", Some("2")), review("r3", Some("3"))]
    };
    let first = run_pipeline(export(reviews()), &recorded);
    let second = run_pipeline(export(reviews()), &recorded);
    assert_eq!(first.report.render(), second.report.render());
    assert_eq!(first.report.render(), r#"{"A": ["r1"], "C": ["r3"]}"#);
    assert_eq!(first.failures.len(), second.failures.len());
    assert_eq!(first.failures[0].review_id, second.failures[0].review_id);
}

#[test]
fn rerun_ignores_responses_for_orders_that_are_not_asked() {
    let reviews = || vec![review("r1", Some("1"))];
    let narrow = vec![answered("1", &[("A", "PID")])];
    let wide = vec![answered("7", &[("Z", "PID")]), answered("1", &[("A", "PID")]), failing("8")];
    let first = run_pipeline(export(reviews()), &narrow);
    let second = run_pipeline(export(reviews()), &wide);
    assert_eq!(first.report.render(), second.report.render());
    assert!(second.failures.is_empty());
}
