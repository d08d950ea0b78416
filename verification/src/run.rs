//! A whole run against a recorded commerce interface: the export is read,
//! every order is looked up in the record, and the outcomes are folded into
//! the report.

use crate::order::{
    resolution_model, resolution_of, resolve, response_model, LineItemModel, OrderLineItem,
    OrdersPage, ResolutionError, ResolutionModel,
};
use crate::pipeline::{
    lemma_next_resolvable, next_resolvable, Phase, Pipeline, RunModel, RunOutcome,
};
use crate::review::{
    export_of_rows, has_required_columns, is_first_short_row, Export, ExportModel, FormatError,
    ReviewModel,
};
use crate::table::{csv_records, parse_export};
use vstd::prelude::*;
use vstd::string::*;

verus! {

/// The response of the commerce interface to the query for one order.
#[derive(Debug, PartialEq, Eq)]
pub struct RecordedResponse {
    pub order_number: String,
    pub response: Result<OrdersPage, String>,
}

/// The mathematical value of a [`RecordedResponse`].
pub struct RecordedModel {
    pub order_number: Seq<char>,
    pub response: Result<Seq<Seq<LineItemModel>>, Seq<char>>,
}

impl View for RecordedResponse {
    type V = RecordedModel;

    open spec fn view(&self) -> RecordedModel {
        RecordedModel {
            order_number: self.order_number@,
            response: response_model(self.response),
        }
    }
}

impl DeepView for RecordedResponse {
    type V = RecordedModel;

    open spec fn deep_view(&self) -> RecordedModel {
        self@
    }
}

/// What the recorded interface answers to the query for `order_number`: the
/// first response recorded for that order. For an order that it does not
/// know it answers with a page without orders.
pub open spec fn recorded_response(recorded: Seq<RecordedModel>, order_number: Seq<char>) -> Result<
    Seq<Seq<LineItemModel>>,
    Seq<char>,
>
    decreases recorded.len(),
{
    if recorded.len() == 0 {
        Ok(Seq::empty())
    } else if recorded[0].order_number == order_number {
        recorded[0].response
    } else {
        recorded_response(recorded.drop_first(), order_number)
    }
}

/// What the lookup of `order_number` in the recorded interface comes to.
pub open spec fn recorded_resolution(
    recorded: Seq<RecordedModel>,
    order_number: Seq<char>,
) -> ResolutionModel {
    resolution_of(order_number, recorded_response(recorded, order_number))
}

/// The run after `review` was dealt with: a review without an order number
/// changes nothing; for any other the order is looked up and the outcome
/// taken in.
pub open spec fn after_review(
    run: RunModel,
    product_id: Seq<char>,
    review: ReviewModel,
    recorded: Seq<RecordedModel>,
) -> RunModel {
    match review.order_number {
        Some(order_number) => run.after_resolution(
            product_id,
            review,
            recorded_resolution(recorded, order_number),
        ),
        None => run,
    }
}

/// The run after the first `n` reviews of `export` were dealt with, in their
/// order.
pub open spec fn run_of_first(export: ExportModel, recorded: Seq<RecordedModel>, n: nat) -> RunModel
    decreases n,
{
    if n == 0 {
        RunModel::empty()
    } else {
        after_review(
            run_of_first(export, recorded, (n - 1) as nat),
            export.product_id,
            export.reviews[n - 1],
            recorded,
        )
    }
}

/// The whole run over `export`.
pub open spec fn run_of(export: ExportModel, recorded: Seq<RecordedModel>) -> RunModel {
    run_of_first(export, recorded, export.reviews.len())
}

/// Reviews without an order number leave a run as it is.
pub proof fn lemma_run_skips_unresolvable(
    export: ExportModel,
    recorded: Seq<RecordedModel>,
    from: nat,
    to: nat,
)
    requires
        from <= to <= export.reviews.len(),
        forall|k: int| from <= k < to ==> (#[trigger] export.reviews[k]).order_number is None,
    ensures
        run_of_first(export, recorded, to) == run_of_first(export, recorded, from),
    decreases to - from,
{
    if from < to {
        lemma_run_skips_unresolvable(export, recorded, from, (to - 1) as nat);
        assert(export.reviews[to - 1].order_number is None);
    }
}

/// Looks `order_number` up in the recorded interface.
pub fn resolve_recorded(recorded: &Vec<RecordedResponse>, order_number: &String) -> (resolution:
    Result<Vec<OrderLineItem>, ResolutionError>)
    ensures
        resolution_model(resolution) == recorded_resolution(recorded.deep_view(), order_number@),
{
    let ghost all = recorded.deep_view();
    let mut i: usize = 0;
    assert(all.skip(0) =~= all);
    while i < recorded.len()
        invariant
            i <= recorded.len(),
            all == recorded.deep_view(),
            recorded_response(all, order_number@) == recorded_response(
                all.skip(i as int),
                order_number@,
            ),
        decreases recorded.len() - i,
    {
        let entry = &recorded[i];
        proof {
            assert(all.skip(i as int)[0] == entry@);
            assert(all.skip(i as int).drop_first() =~= all.skip(i as int + 1));
        }
        if entry.order_number == *order_number {
            return resolve(order_number, &entry.response);
        }
        i = i + 1;
    }
    assert(all.skip(i as int).len() == 0);
    let unknown: Result<OrdersPage, String> = Ok(OrdersPage { orders: Vec::new() });
    assert(response_model(unknown) == Ok::<Seq<Seq<LineItemModel>>, Seq<char>>(Seq::empty())) by {
        assert(unknown->Ok_0@ =~= Seq::<Seq<LineItemModel>>::empty());
    }
    resolve(order_number, &unknown)
}

/// Runs the orchestrator over `export`, looking every order up in the
/// recorded interface, until the run is done.
pub fn run_pipeline(export: Export, recorded: &Vec<RecordedResponse>) -> (outcome: RunOutcome)
    ensures
        outcome.report.wf(),
        outcome@ == run_of(export@, recorded.deep_view()),
{
    let ghost model = export@;
    let ghost answers = recorded.deep_view();
    let mut pipeline = Pipeline::new();
    pipeline.begin(export);
    loop
        invariant_except_break
            pipeline@.phase == Phase::Resolving,
            pipeline@.product_id == model.product_id,
            pipeline@.reviews == model.reviews,
            pipeline@.cursor <= model.reviews.len(),
            pipeline@.run == run_of_first(model, answers, pipeline@.cursor),
        invariant
            pipeline.wf(),
            answers == recorded.deep_view(),
        ensures
            pipeline.wf(),
            pipeline@.run == run_of(model, answers),
        decreases model.reviews.len() - pipeline@.cursor,
    {
        let ghost before = pipeline@;
        proof {
            lemma_next_resolvable(before.reviews, before.cursor);
            lemma_run_skips_unresolvable(
                model,
                answers,
                before.cursor,
                next_resolvable(before.reviews, before.cursor),
            );
        }
        match pipeline.next_request() {
            Some(request) => {
                let resolution = resolve_recorded(recorded, &request.order_number);
                pipeline.deliver(resolution);
            },
            None => {
                break ;
            },
        }
    }
    pipeline.finish()
}

/// Groups the reviews of an export by the variant that was bought.
///
/// `data` holds the bytes of the export; `recorded` stands for the commerce
/// interface. The result is the report of the whole run together with the
/// lookups that failed; an export that cannot be read ends the run before any
/// lookup.
pub fn group_by_variant(data: &[u8], recorded: &Vec<RecordedResponse>) -> (result: Result<
    RunOutcome,
    FormatError,
>)
    ensures
        match result {
            Ok(outcome) => {
                &&& csv_records(data@) matches Some(rows)
                &&& forall|i: int| 0 <= i < rows.len() ==> has_required_columns(#[trigger] rows[i])
                &&& outcome.report.wf()
                &&& outcome@ == run_of(export_of_rows(rows), recorded.deep_view())
            },
            Err(FormatError::MissingColumns { row, found }) => {
                &&& csv_records(data@) matches Some(rows)
                &&& is_first_short_row(rows, row as int)
                &&& found == rows[row as int].len()
            },
            Err(FormatError::Malformed { .. }) => csv_records(data@) is None,
        },
{
    match parse_export(data) {
        Ok(export) => Ok(run_pipeline(export, recorded)),
        Err(error) => Err(error),
    }
}

} // verus!
