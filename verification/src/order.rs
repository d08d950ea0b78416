//! Orders as the commerce interface describes them: the filter that selects
//! an order by its name, the line items of an order, and the rule that picks
//! the line item a review refers to.

use vstd::prelude::*;
use vstd::string::*;

verus! {

/// One purchased position of an order: the variant bought and the product it
/// belongs to.
#[derive(Debug, PartialEq, Eq)]
pub struct OrderLineItem {
    pub sku: String,
    pub product_id: String,
}

/// The mathematical value of an [`OrderLineItem`].
pub struct LineItemModel {
    pub sku: Seq<char>,
    pub product_id: Seq<char>,
}

impl View for OrderLineItem {
    type V = LineItemModel;

    open spec fn view(&self) -> LineItemModel {
        LineItemModel { sku: self.sku@, product_id: self.product_id@ }
    }
}

impl DeepView for OrderLineItem {
    type V = LineItemModel;

    open spec fn deep_view(&self) -> LineItemModel {
        self@
    }
}

impl OrderLineItem {
    /// A line item of the given SKU and product.
    pub fn new(sku: &str, product_id: &str) -> (item: OrderLineItem)
        ensures
            item@ == (LineItemModel { sku: sku@, product_id: product_id@ }),
    {
        OrderLineItem { sku: String::from_str(sku), product_id: String::from_str(product_id) }
    }

    /// An independent copy of this line item.
    pub fn duplicate(&self) -> (item: OrderLineItem)
        ensures
            item@ == self@,
    {
        OrderLineItem { sku: self.sku.clone(), product_id: self.product_id.clone() }
    }
}

/// The filter that selects the order with the given order number: the
/// commerce system names an order by its number followed by a fixed tag.
pub open spec fn order_name_query_text(order_number: Seq<char>) -> Seq<char> {
    "name:"@ + order_number + "-QDO"@
}

/// Builds the order filter for `order_number`.
pub fn order_name_query(order_number: &str) -> (query: String)
    ensures
        query@ == order_name_query_text(order_number@),
{
    let mut query = String::from_str("name:");
    query.append(order_number);
    query.append("-QDO");
    query
}

/// The line items of `items` that belong to `product_id`, in their order.
pub open spec fn matching_items(items: Seq<LineItemModel>, product_id: Seq<char>) -> Seq<
    LineItemModel,
> {
    items.filter(|item: LineItemModel| item.product_id == product_id)
}

/// The SKU a review of `product_id` is attributed to, given the line items of
/// its order: that of the first line item of the product, if there is one.
pub open spec fn selected_sku(items: Seq<LineItemModel>, product_id: Seq<char>) -> Option<
    Seq<char>,
> {
    let matching = matching_items(items, product_id);
    if matching.len() > 0 {
        Some(matching[0].sku)
    } else {
        None
    }
}

/// Keeps the line items that belong to `product_id`, in their order.
pub fn filter_by_product(items: &Vec<OrderLineItem>, product_id: &String) -> (kept: Vec<
    OrderLineItem,
>)
    ensures
        kept.deep_view() == matching_items(items.deep_view(), product_id@),
{
    let mut kept: Vec<OrderLineItem> = Vec::new();
    let mut i: usize = 0;
    proof {
        assert(items.deep_view().take(0) =~= Seq::<LineItemModel>::empty());
        assert(kept.deep_view() =~= Seq::<LineItemModel>::empty());
        assert(matching_items(Seq::empty(), product_id@) =~= Seq::<LineItemModel>::empty());
    }
    while i < items.len()
        invariant
            i <= items.len(),
            kept.deep_view() == matching_items(items.deep_view().take(i as int), product_id@),
        decreases items.len() - i,
    {
        let item = &items[i];
        let ghost before = kept.deep_view();
        proof {
            items.deep_view().take(i as int).lemma_filter_push(
                item@,
                |other: LineItemModel| other.product_id == product_id@,
            );
            assert(items.deep_view().take(i as int).push(item@) =~= items.deep_view().take(
                i as int + 1,
            ));
        }
        if item.product_id == *product_id {
            kept.push(item.duplicate());
            assert(kept.deep_view() =~= before.push(item@));
        }
        i = i + 1;
    }
    proof {
        assert(items.deep_view().take(items.len() as int) =~= items.deep_view());
    }
    kept
}

/// The most orders that one query asks for.
pub const ORDERS_PER_QUERY: usize = 1;

/// The most line items that one query asks for per order. Longer orders are
/// cut at this length by the commerce interface.
pub const LINE_ITEMS_PER_ORDER: usize = 100;

/// The query that asks for the line items of the order selected by the
/// variable `order_name_query`.
pub const LINE_ITEMS_QUERY: &'static str =
    "query ($order_name_query: String) { orders(first: 1, query: $order_name_query) { edges { node { lineItems(first: 100) { edges { node { sku product { legacyResourceId } } } } } } } }";

/// One order of a response.
#[derive(Debug, PartialEq, Eq)]
pub struct Order {
    pub line_items: Vec<OrderLineItem>,
}

impl View for Order {
    type V = Seq<LineItemModel>;

    open spec fn view(&self) -> Seq<LineItemModel> {
        self.line_items.deep_view()
    }
}

impl DeepView for Order {
    type V = Seq<LineItemModel>;

    open spec fn deep_view(&self) -> Seq<LineItemModel> {
        self@
    }
}

/// What the commerce interface answers to one query: the orders that match,
/// each with its line items.
#[derive(Debug, PartialEq, Eq)]
pub struct OrdersPage {
    pub orders: Vec<Order>,
}

impl View for OrdersPage {
    type V = Seq<Seq<LineItemModel>>;

    open spec fn view(&self) -> Seq<Seq<LineItemModel>> {
        self.orders.deep_view()
    }
}

/// A failed lookup of one order.
#[derive(Debug, PartialEq, Eq)]
pub struct ResolutionError {
    pub order_number: String,
    pub cause: String,
}

/// The mathematical value of a [`ResolutionError`].
pub struct ResolutionErrorModel {
    pub order_number: Seq<char>,
    pub cause: Seq<char>,
}

impl View for ResolutionError {
    type V = ResolutionErrorModel;

    open spec fn view(&self) -> ResolutionErrorModel {
        ResolutionErrorModel { order_number: self.order_number@, cause: self.cause@ }
    }
}

/// What the lookup of one order comes to: its line items, or the failure.
pub type ResolutionModel = Result<Seq<LineItemModel>, ResolutionErrorModel>;

/// The mathematical value of the outcome of a lookup.
pub open spec fn resolution_model(
    resolution: Result<Vec<OrderLineItem>, ResolutionError>,
) -> ResolutionModel {
    match resolution {
        Ok(items) => Ok(items.deep_view()),
        Err(error) => Err(error@),
    }
}

/// The mathematical value of a response of the commerce interface, which
/// either is a page of orders or failed for the given cause.
pub open spec fn response_model(response: Result<OrdersPage, String>) -> Result<
    Seq<Seq<LineItemModel>>,
    Seq<char>,
> {
    match response {
        Ok(page) => Ok(page@),
        Err(cause) => Err(cause@),
    }
}

/// The line items that a page of orders names: those of its first order, and
/// none where no order matched.
pub open spec fn line_items_of_page(orders: Seq<Seq<LineItemModel>>) -> Seq<LineItemModel> {
    if orders.len() > 0 {
        orders[0]
    } else {
        Seq::empty()
    }
}

/// What the lookup of `order_number` comes to, given the response to its
/// query. A response without a matching order, or with an order without line
/// items, is no failure: it resolves to no line items. A failed query
/// resolves to an error that names the order and the cause.
pub open spec fn resolution_of(
    order_number: Seq<char>,
    response: Result<Seq<Seq<LineItemModel>>, Seq<char>>,
) -> ResolutionModel {
    match response {
        Ok(orders) => Ok(line_items_of_page(orders)),
        Err(cause) => Err(ResolutionErrorModel { order_number: order_number, cause: cause }),
    }
}

/// Copies line items.
pub fn duplicate_items(items: &Vec<OrderLineItem>) -> (copy: Vec<OrderLineItem>)
    ensures
        copy.deep_view() == items.deep_view(),
{
    let mut copy: Vec<OrderLineItem> = Vec::new();
    let mut i: usize = 0;
    while i < items.len()
        invariant
            i <= items.len(),
            copy.len() == i,
            forall|j: int| 0 <= j < i ==> (#[trigger] copy[j])@ == items[j]@,
        decreases items.len() - i,
    {
        copy.push(items[i].duplicate());
        i = i + 1;
    }
    assert(copy.deep_view() =~= items.deep_view());
    copy
}

/// Turns the response to the query for `order_number` into the outcome of
/// the lookup.
pub fn resolve(order_number: &String, response: &Result<OrdersPage, String>) -> (resolution:
    Result<Vec<OrderLineItem>, ResolutionError>)
    ensures
        resolution_model(resolution) == resolution_of(order_number@, response_model(*response)),
{
    match response {
        Ok(page) => {
            if page.orders.len() > 0 {
                assert(page@[0] == page.orders[0]@);
                Ok(duplicate_items(&page.orders[0].line_items))
            } else {
                let none: Vec<OrderLineItem> = Vec::new();
                assert(none.deep_view() =~= Seq::<LineItemModel>::empty());
                Ok(none)
            }
        },
        Err(cause) => Err(
            ResolutionError { order_number: order_number.clone(), cause: cause.clone() },
        ),
    }
}

} // verus!
