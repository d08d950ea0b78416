use variant_reviews::order::{Order, OrderLineItem, OrdersPage};
use variant_reviews::order::resolve;
use variant_reviews::pipeline::{Phase, Pipeline};
use variant_reviews::report::VariantReport;
use variant_reviews::review::FormatError;
use variant_reviews::run::{group_by_variant, RecordedResponse};
use variant_reviews::table::parse_export;

fn header() -> String {
    let names: Vec<String> = (0..31).map(|i| format!("c{}", i)).collect();
    names.join(",")
}

fn row(id: &str, order: &str, product: &str) -> String {
    let mut fields: Vec<String> = vec![String::new(); 31];
    fields[1] = id.to_string();
    fields[8] = format!("title of {}", id);
    fields[9] = format!("content of {}", id);
    fields[22] = order.to_string();
    fields[30] = product.to_string();
    fields.join(",")
}

fn export(rows: &[String]) -> Vec<u8> {
    let mut text = header();
    for r in rows {
        text.push('\n');
        text.push_str(r);
    }
    text.push('\n');
    text.into_bytes()
}

fn answered(order: &str, items: &[(&str, &str)]) -> RecordedResponse {
    let line_items = items.iter().map(|(sku, product)| OrderLineItem::new(sku, product)).collect();
    RecordedResponse {
        order_number: order.to_string(),
        response: Ok(OrdersPage { orders: vec![Order { line_items }] }),
    }
}

fn failing(order: &str, cause: &str) -> RecordedResponse {
    RecordedResponse { order_number: order.to_string(), response: Err(cause.to_string()) }
}

fn listing(report: &VariantReport) -> Vec<(String, Vec<String>)> {
    (0..report.len())
        .map(|i| (report.sku_at(i).clone(), report.review_ids_at(i).clone()))
        .collect()
}

#[test]
fn three_rows_with_one_missing_order_number() {
    let data = export(&[row("r1", "1001", "PID"), row("r2", "", "PID"), row("r3", "1002", "PID")]);
    let recorded = vec![
        answered("1001", &[("A", "PID")]),
        answered("1002", &[("B", "OTHER"), ("C", "PID")]),
    ];
    let outcome = group_by_variant(&data, &recorded).unwrap();
    assert_eq!(
        listing(&outcome.report),
        vec![
            ("A".to_string(), vec!["r1".to_string()]),
            ("C".to_string(), vec!["r3".to_string()]),
        ]
    );
    assert!(outcome.report.get(&"B".to_string()).is_none());
    assert!(outcome.failures.is_empty());
}

#[test]
fn one_failed_lookup_among_five() {
    let data = export(&[
        row("r1", "1", "PID"),
        row("r2", "2", "PID"),
        row("r3", "3", "PID"),
        row("r4", "4", "PID"),
        row("r5", "5", "PID"),
    ]);
    let recorded = vec![
        answered("1", &[("A", "PID")]),
        answered("2", &[("B", "PID")]),
        failing("3", "connection failed"),
        answered("4", &[("A", "PID")]),
        answered("5", &[("C", "PID")]),
    ];
    let outcome = group_by_variant(&data, &recorded).unwrap();
    assert_eq!(
        listing(&outcome.report),
        vec![
            ("A".to_string(), vec!["r1".to_string(), "r4".to_string()]),
            ("B".to_string(), vec!["r2".to_string()]),
            ("C".to_string(), vec!["r5".to_string()]),
        ]
    );
    assert_eq!(outcome.failures.len(), 1);
    assert_eq!(outcome.failures[0].review_id, "r3");
    assert_eq!(outcome.failures[0].error.order_number, "3");
    assert_eq!(outcome.failures[0].error.cause, "connection failed");
}

#[test]
fn short_row_is_a_format_error() {
    let data = b"a,b,c\n1,2,3\n".to_vec();
    match group_by_variant(&data, &Vec::new()) {
        Err(FormatError::MissingColumns { row, found }) => {
            assert_eq!(row, 0);
            assert_eq!(found, 3);
        }
        other => panic!("unexpected result: {:?}", other),
    }
}

#[test]
fn lookups_are_made_only_for_reviews_with_an_order_number() {
    let data = export(&[row("r1", "1001", "PID"), row("r2", "", "PID"), row("r3", "1002", "PID")]);
    let mut pipeline = Pipeline::new();
    assert!(pipeline.begin(parse_export(&data).unwrap()));
    let mut asked: Vec<(String, String, String)> = Vec::new();
    while let Some(request) = pipeline.next_request() {
        let response = if request.order_number == "1001" {
            answered("1001", &[("A", "PID")]).response
        } else {
            answered("1002", &[("B", "OTHER"), ("C", "PID")]).response
        };
        let resolution = resolve(&request.order_number, &response);
        asked.push((request.review_id, request.order_number, request.query));
        assert!(pipeline.deliver(resolution));
    }
    assert_eq!(pipeline.phase(), Phase::Done);
    assert_eq!(
        asked,
        vec![
            ("r1".to_string(), "1001".to_string(), "name:1001-QDO".to_string()),
            ("r3".to_string(), "1002".to_string(), "name:1002-QDO".to_string()),
        ]
    );
    let outcome = pipeline.finish();
    assert_eq!(outcome.report.render(), r#"{"A": ["r1"], "C": ["r3"]}"#);
    assert!(outcome.failures.is_empty());
}

#[test]
fn malformed_export_ends_the_run_before_any_lookup() {
    let result = group_by_variant(b"a,b\n\"unclosed,1\n2\n", &Vec::new());
    assert!(result.is_err());
}
