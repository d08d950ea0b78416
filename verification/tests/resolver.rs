use variant_reviews::order::{
    duplicate_items, filter_by_product, order_name_query, resolve, Order, OrderLineItem,
    OrdersPage, LINE_ITEMS_PER_ORDER, LINE_ITEMS_QUERY, ORDERS_PER_QUERY,
};

fn items(pairs: &[(&str, &str)]) -> Vec<OrderLineItem> {
    pairs.iter().map(|(sku, product)| OrderLineItem::new(sku, product)).collect()
}

fn pairs(items: &[OrderLineItem]) -> Vec<(String, String)> {
    items.iter().map(|item| (item.sku.clone(), item.product_id.clone())).collect()
}

fn owned(list: &[(&str, &str)]) -> Vec<(String, String)> {
    list.iter().map(|(a, b)| (a.to_string(), b.to_string())).collect()
}

#[test]
fn order_name_is_prefixed_and_tagged() {
    assert_eq!(order_name_query("1001"), "name:1001-QDO");
    assert_eq!(order_name_query(""), "name:-QDO");
}

#[test]
fn query_asks_for_one_order_and_a_bounded_page() {
    assert_eq!(ORDERS_PER_QUERY, 1);
    assert_eq!(LINE_ITEMS_PER_ORDER, 100);
    assert!(LINE_ITEMS_QUERY.contains("orders(first: 1, query: $order_name_query)"));
    assert!(LINE_ITEMS_QUERY.contains("lineItems(first: 100)"));
    assert!(LINE_ITEMS_QUERY.contains("legacyResourceId"));
}

#[test]
fn filter_keeps_items_of_the_product_in_order() {
    let all = items(&[("B", "OTHER"), ("C", "PID"), ("D", "PID"), ("E", "ELSE")]);
    let kept = filter_by_product(&all, &"PID".to_string());
    assert_eq!(pairs(&kept), owned(&[("C", "PID"), ("D", "PID")]));
}

#[test]
fn filter_of_nothing_is_nothing() {
    assert!(filter_by_product(&Vec::new(), &"PID".to_string()).is_empty());
    let all = items(&[("B", "OTHER")]);
    assert!(filter_by_product(&all, &"PID".to_string()).is_empty());
}

#[test]
fn copies_are_equal_to_their_source() {
    let all = items(&[("B", "OTHER"), ("C", "PID")]);
    assert_eq!(pairs(&duplicate_items(&all)), owned(&[("B", "OTHER"), ("C", "PID")]));
    let copy = all[1].duplicate();
    assert_eq!(copy.sku, "C");
    assert_eq!(copy.product_id, "PID");
}

#[test]
fn response_resolves_to_the_items_of_its_first_order() {
    let page = OrdersPage {
        orders: vec![
            Order { line_items: items(&[("A", "PID"), ("B", "OTHER")]) },
            Order { line_items: items(&[("Z", "PID")]) },
        ],
    };
    let resolved = resolve(&"1001".to_string(), &Ok(page)).unwrap();
    assert_eq!(pairs(&resolved), owned(&[("A", "PID"), ("B", "OTHER")]));
}

#[test]
fn response_without_orders_resolves_to_no_items() {
    let page = OrdersPage { orders: Vec::new() };
    let resolved = resolve(&"1001".to_string(), &Ok(page)).unwrap();
    assert!(resolved.is_empty());
}

#[test]
fn order_without_line_items_resolves_to_no_items() {
    let page = OrdersPage { orders: vec![Order { line_items: Vec::new() }] };
    let resolved = resolve(&"1001".to_string(), &Ok(page)).unwrap();
    assert!(resolved.is_empty());
}

#[test]
fn failed_query_resolves_to_an_error_with_order_and_cause() {
    let error = resolve(&"1001".to_string(), &Err("timed out".to_string())).unwrap_err();
    assert_eq!(error.order_number, "1001");
    assert_eq!(error.cause, "timed out");
}
