use variant_reviews::order::{OrderLineItem, ResolutionError};
use variant_reviews::pipeline::{Phase, Pipeline};
use variant_reviews::review::{Export, ProductReview};

fn review(id: &str, order: Option<&str>) -> ProductReview {
    ProductReview {
        id: id.to_string(),
        order_number: order.map(|o| o.to_string()),
        title: String::new(),
        content: String::new(),
    }
}

fn export(reviews: Vec<ProductReview>) -> Export {
    Export { product_id: "PID".to_string(), reviews }
}

fn failure(order: &str) -> ResolutionError {
    ResolutionError { order_number: order.to_string(), cause: "no connection".to_string() }
}

#[test]
fn machine_starts_idle_and_begins_once() {
    let mut pipeline = Pipeline::new();
    assert_eq!(pipeline.phase(), Phase::Idle);
    assert!(pipeline.next_request().is_none());
    assert_eq!(pipeline.phase(), Phase::Idle);
    assert!(!pipeline.deliver(Ok(Vec::new())));
    assert!(pipeline.begin(export(vec![review("r1", Some("1"))])));
    assert_eq!(pipeline.phase(), Phase::Resolving);
    assert!(!pipeline.begin(export(Vec::new())));
    assert_eq!(pipeline.phase(), Phase::Resolving);
    assert!(pipeline.next_request().is_some());
}

#[test]
fn export_without_reviews_is_done_at_once() {
    let mut pipeline = Pipeline::new();
    pipeline.begin(export(Vec::new()));
    assert!(pipeline.next_request().is_none());
    assert_eq!(pipeline.phase(), Phase::Done);
    let outcome = pipeline.finish();
    assert!(outcome.report.is_empty());
    assert!(outcome.failures.is_empty());
}

#[test]
fn reviews_without_order_number_are_never_requested() {
    let mut pipeline = Pipeline::new();
    pipeline.begin(export(vec![
        review("r1", None),
        review("r2", Some("1002")),
        review("r3", None),
    ]));
    let request = pipeline.next_request().unwrap();
    assert_eq!(request.review_id, "r2");
    assert_eq!(request.order_number, "1002");
    assert_eq!(request.query, "name:1002-QDO");
    assert!(pipeline.deliver(Ok(vec![OrderLineItem::new("A", "PID")])));
    assert!(pipeline.next_request().is_none());
    assert_eq!(pipeline.phase(), Phase::Done);
    let outcome = pipeline.finish();
    assert_eq!(outcome.report.len(), 1);
    assert_eq!(outcome.report.get(&"A".to_string()), Some(&vec!["r2".to_string()]));
}

#[test]
fn request_is_repeated_until_its_outcome_is_delivered() {
    let mut pipeline = Pipeline::new();
    pipeline.begin(export(vec![review("r1", Some("1")), review("r2", Some("2"))]));
    assert_eq!(pipeline.next_request().unwrap().review_id, "r1");
    assert_eq!(pipeline.next_request().unwrap().review_id, "r1");
    assert!(pipeline.deliver(Ok(Vec::new())));
    assert_eq!(pipeline.next_request().unwrap().review_id, "r2");
}

#[test]
fn outcome_is_refused_where_none_is_awaited() {
    let mut pipeline = Pipeline::new();
    pipeline.begin(export(vec![review("r1", None), review("r2", Some("2"))]));
    assert!(!pipeline.deliver(Ok(vec![OrderLineItem::new("A", "PID")])));
    assert!(pipeline.report().is_empty());
    assert_eq!(pipeline.next_request().unwrap().review_id, "r2");
    assert!(pipeline.deliver(Ok(vec![OrderLineItem::new("A", "PID")])));
    assert!(pipeline.next_request().is_none());
    assert!(!pipeline.deliver(Ok(vec![OrderLineItem::new("B", "PID")])));
    assert_eq!(pipeline.report().len(), 1);
}

#[test]
fn failed_lookup_is_noted_and_the_walk_goes_on() {
    let mut pipeline = Pipeline::new();
    pipeline.begin(export(vec![review("r1", Some("1")), review("r2", Some("2"))]));
    pipeline.next_request();
    assert!(pipeline.deliver(Err(failure("1"))));
    assert_eq!(pipeline.phase(), Phase::Resolving);
    assert_eq!(pipeline.failures().len(), 1);
    assert_eq!(pipeline.failures()[0].review_id, "r1");
    assert_eq!(pipeline.failures()[0].error.order_number, "1");
    assert_eq!(pipeline.failures()[0].error.cause, "no connection");
    assert_eq!(pipeline.next_request().unwrap().review_id, "r2");
    pipeline.deliver(Ok(vec![OrderLineItem::new("A", "PID")]));
    assert!(pipeline.next_request().is_none());
    let outcome = pipeline.finish();
    assert_eq!(outcome.report.get(&"A".to_string()), Some(&vec!["r2".to_string()]));
    assert_eq!(outcome.failures.len(), 1);
}

#[test]
fn empty_line_items_are_no_failure() {
    let mut pipeline = Pipeline::new();
    pipeline.begin(export(vec![review("r1", Some("1"))]));
    pipeline.next_request();
    assert!(pipeline.deliver(Ok(Vec::new())));
    assert!(pipeline.next_request().is_none());
    let outcome = pipeline.finish();
    assert!(outcome.report.is_empty());
    assert!(outcome.failures.is_empty());
}

#[test]
fn partial_report_is_available_before_the_end() {
    let mut pipeline = Pipeline::new();
    pipeline.begin(export(vec![review("r1", Some("1")), review("r2", Some("2"))]));
    pipeline.next_request();
    pipeline.deliver(Ok(vec![OrderLineItem::new("A", "PID")]));
    assert_eq!(pipeline.report().get(&"A".to_string()), Some(&vec!["r1".to_string()]));
    let outcome = pipeline.finish();
    assert_eq!(outcome.report.len(), 1);
}
