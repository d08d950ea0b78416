//! What a run attributes: which reviews reach the report, and where.
//!
//! The report of a run is described here without reference to the order in
//! which the machine works: the bucket of a SKU lists the reviews attributed
//! to that SKU, in the order of the export. The laws of the pipeline follow
//! from this description.

use crate::order::{matching_items, selected_sku, LineItemModel, ResolutionErrorModel};
use crate::pipeline::{FailureModel, RunModel};
use crate::report::ReportModel;
use crate::review::{ExportModel, ReviewModel};
use crate::run::{
    after_review, recorded_resolution, recorded_response, run_of, run_of_first, RecordedModel,
};
use vstd::prelude::*;

verus! {

/// The SKU that `review` is attributed to: that of the first line item of the
/// reviewed product in its order. A review without an order number, with a
/// failed lookup, or without a line item of the product is attributed to
/// none.
pub open spec fn attribution(
    product_id: Seq<char>,
    review: ReviewModel,
    recorded: Seq<RecordedModel>,
) -> Option<Seq<char>> {
    match review.order_number {
        Some(order_number) => match recorded_resolution(recorded, order_number) {
            Ok(items) => selected_sku(items, product_id),
            Err(_) => None,
        },
        None => None,
    }
}

/// The reviews of `export` that are attributed to `sku`, in their order.
pub open spec fn attributed_reviews(
    export: ExportModel,
    recorded: Seq<RecordedModel>,
    sku: Seq<char>,
) -> Seq<ReviewModel> {
    export.reviews.filter(
        |review: ReviewModel| attribution(export.product_id, review, recorded) == Some(sku),
    )
}

/// The identifiers of the reviews of `export` that are attributed to `sku`.
pub open spec fn attributed_ids(
    export: ExportModel,
    recorded: Seq<RecordedModel>,
    sku: Seq<char>,
) -> Seq<Seq<char>> {
    attributed_reviews(export, recorded, sku).map_values(|review: ReviewModel| review.id)
}

/// The export cut behind its first `n` reviews.
pub open spec fn first_reviews(export: ExportModel, n: nat) -> ExportModel {
    ExportModel { product_id: export.product_id, reviews: export.reviews.take(n as int) }
}

/// One review changes the report only by its attribution: the review
/// identifier is recorded under the SKU it is attributed to.
pub proof fn lemma_review_changes_report_by_attribution(
    run: RunModel,
    product_id: Seq<char>,
    review: ReviewModel,
    recorded: Seq<RecordedModel>,
)
    ensures
        after_review(run, product_id, review, recorded).report == match attribution(
            product_id,
            review,
            recorded,
        ) {
            Some(sku) => run.report.record(sku, review.id),
            None => run.report,
        },
{
}

/// After the first `n` reviews, the bucket of every SKU lists the reviews
/// among them that are attributed to it.
pub proof fn lemma_buckets_after_first(
    export: ExportModel,
    recorded: Seq<RecordedModel>,
    n: nat,
    sku: Seq<char>,
)
    requires
        n <= export.reviews.len(),
    ensures
        run_of_first(export, recorded, n).report.bucket(sku) == attributed_ids(
            first_reviews(export, n),
            recorded,
            sku,
        ),
    decreases n,
{
    let attributed = |review: ReviewModel|
        attribution(export.product_id, review, recorded) == Some(sku);
    let id_of = |review: ReviewModel| review.id;
    if n == 0 {
        assert(export.reviews.take(0) =~= Seq::<ReviewModel>::empty());
        assert(Seq::<ReviewModel>::empty().filter(attributed) =~= Seq::<ReviewModel>::empty());
        assert(attributed_ids(first_reviews(export, 0), recorded, sku) =~= Seq::<
            Seq<char>,
        >::empty());
    } else {
        let before = (n - 1) as nat;
        let review = export.reviews[n - 1];
        lemma_buckets_after_first(export, recorded, before, sku);
        lemma_review_changes_report_by_attribution(
            run_of_first(export, recorded, before),
            export.product_id,
            review,
            recorded,
        );
        let earlier = export.reviews.take(before as int);
        assert(export.reviews.take(n as int) =~= earlier.push(review));
        earlier.lemma_filter_push(review, attributed);
        if attributed(review) {
            earlier.filter(attributed).lemma_push_map_commute(id_of, review);
        }
    }
}

/// The report of a run lists, under every SKU, the reviews attributed to it,
/// in the order of the export; a SKU has a bucket if and only if a review is
/// attributed to it.
pub proof fn lemma_report_lists_attributed_reviews(
    export: ExportModel,
    recorded: Seq<RecordedModel>,
    sku: Seq<char>,
)
    ensures
        run_of(export, recorded).report.bucket(sku) == attributed_ids(export, recorded, sku),
        run_of(export, recorded).report.buckets.dom().contains(sku) <==> attributed_ids(
            export,
            recorded,
            sku,
        ).len() > 0,
{
    let n = export.reviews.len();
    lemma_buckets_after_first(export, recorded, n, sku);
    assert(export.reviews.take(n as int) =~= export.reviews);
    assert(first_reviews(export, n) == export);
    lemma_run_report_wf(export, recorded, n);
}

/// The report stays well-formed throughout a run.
pub proof fn lemma_run_report_wf(export: ExportModel, recorded: Seq<RecordedModel>, n: nat)
    requires
        n <= export.reviews.len(),
    ensures
        run_of_first(export, recorded, n).report.wf(),
    decreases n,
{
    if n > 0 {
        let before = run_of_first(export, recorded, (n - 1) as nat);
        let review = export.reviews[n - 1];
        lemma_run_report_wf(export, recorded, (n - 1) as nat);
        lemma_review_changes_report_by_attribution(before, export.product_id, review, recorded);
        match attribution(export.product_id, review, recorded) {
            Some(sku) => {
                lemma_record_keeps_wf(before.report, sku, review.id);
            },
            None => {},
        }
    }
}

/// Recording a review keeps a report well-formed.
pub proof fn lemma_record_keeps_wf(report: ReportModel, sku: Seq<char>, review_id: Seq<char>)
    requires
        report.wf(),
    ensures
        report.record(sku, review_id).wf(),
{
    let after = report.record(sku, review_id);
    let last = report.skus.len() as int;
    assert forall|k: Seq<char>| after.skus.contains(k) <==> after.buckets.dom().contains(k) by {
        assert(report.skus.contains(k) <==> report.buckets.dom().contains(k));
        assert(after.buckets.dom().contains(k) <==> (k == sku || report.buckets.dom().contains(k)));
        if report.skus.contains(sku) {
            assert(after.skus == report.skus);
        } else {
            assert(after.skus[last] == sku);
            if report.skus.contains(k) {
                let i = choose|i: int| 0 <= i < report.skus.len() && report.skus[i] == k;
                assert(after.skus[i] == k);
            }
            if after.skus.contains(k) && k != sku {
                let i = choose|i: int| 0 <= i < after.skus.len() && after.skus[i] == k;
                assert(report.skus[i] == k);
            }
        }
    }
    assert forall|k: Seq<char>| #[trigger]
        after.buckets.dom().contains(k) implies after.buckets[k].len() > 0 by {
        if k != sku {
            assert(report.buckets.dom().contains(k));
        }
    }
    assert(after.skus.no_duplicates()) by {
        if !report.skus.contains(sku) {
            assert forall|i: int, j: int|
                0 <= i < after.skus.len() && 0 <= j < after.skus.len() && i != j implies
                after.skus[i] != after.skus[j] by {
                if i < last {
                    assert(report.skus[i] == after.skus[i]);
                }
                if j < last {
                    assert(report.skus[j] == after.skus[j]);
                }
            }
        }
    }
}

/// The failure that the lookup for `review` is noted with, if it fails.
pub open spec fn failure_of(review: ReviewModel, recorded: Seq<RecordedModel>) -> Option<
    FailureModel,
> {
    match review.order_number {
        Some(order_number) => match recorded_resolution(recorded, order_number) {
            Ok(_) => None,
            Err(error) => Some(FailureModel { review_id: review.id, error: error }),
        },
        None => None,
    }
}

/// After the first `n` reviews, the noted failures are those of the reviews
/// among them whose lookup failed, in their order.
pub proof fn lemma_failures_after_first(
    export: ExportModel,
    recorded: Seq<RecordedModel>,
    n: nat,
)
    requires
        n <= export.reviews.len(),
    ensures
        run_of_first(export, recorded, n).failures == export.reviews.take(n as int).filter_map(
            |review: ReviewModel| failure_of(review, recorded),
        ),
    decreases n,
{
    let failed = |review: ReviewModel| failure_of(review, recorded);
    let now = export.reviews.take(n as int);
    if n == 0 {
        assert(now.filter_map(failed) =~= Seq::<FailureModel>::empty());
    } else {
        lemma_failures_after_first(export, recorded, (n - 1) as nat);
        assert(now.drop_last() =~= export.reviews.take(n - 1));
        assert(now.last() == export.reviews[n - 1]);
        assert(run_of_first(export, recorded, n).failures =~= now.filter_map(failed));
    }
}

/// The failures that a run notes are those of the reviews whose lookup
/// failed, in the order of the export.
pub proof fn lemma_run_notes_failed_lookups(export: ExportModel, recorded: Seq<RecordedModel>)
    ensures
        run_of(export, recorded).failures == export.reviews.filter_map(
            |review: ReviewModel| failure_of(review, recorded),
        ),
{
    lemma_failures_after_first(export, recorded, export.reviews.len());
    assert(export.reviews.take(export.reviews.len() as int) =~= export.reviews);
}

/// A review identifier stands in the bucket of a SKU if and only if a review
/// of that identifier is attributed to the SKU.
pub proof fn lemma_reported_iff_attributed(
    export: ExportModel,
    recorded: Seq<RecordedModel>,
    sku: Seq<char>,
    review_id: Seq<char>,
)
    ensures
        run_of(export, recorded).report.bucket(sku).contains(review_id) <==> exists|i: int|
            0 <= i < export.reviews.len() && (#[trigger] export.reviews[i]).id == review_id
                && attribution(export.product_id, export.reviews[i], recorded) == Some(sku),
{
    let attributed = |review: ReviewModel|
        attribution(export.product_id, review, recorded) == Some(sku);
    let id_of = |review: ReviewModel| review.id;
    let kept = export.reviews.filter(attributed);
    let ids = kept.map_values(id_of);
    lemma_report_lists_attributed_reviews(export, recorded, sku);
    broadcast use vstd::seq_lib::group_filter_ensures;

    if ids.contains(review_id) {
        let k = choose|k: int| 0 <= k < ids.len() && ids[k] == review_id;
        assert(kept[k].id == review_id);
        assert(attributed(kept[k]));
        assert(kept.contains(kept[k]));
        export.reviews.lemma_filter_contains_rev(attributed, kept[k]);
        let i = choose|i: int| 0 <= i < export.reviews.len() && export.reviews[i] == kept[k];
        assert(export.reviews[i].id == review_id);
    }
    if exists|i: int|
        0 <= i < export.reviews.len() && (#[trigger] export.reviews[i]).id == review_id
            && attribution(export.product_id, export.reviews[i], recorded) == Some(sku) {
        let i = choose|i: int|
            0 <= i < export.reviews.len() && (#[trigger] export.reviews[i]).id == review_id
                && attribution(export.product_id, export.reviews[i], recorded) == Some(sku);
        assert(attributed(export.reviews[i]));
        assert(kept.contains(export.reviews[i]));
        let k = choose|k: int| 0 <= k < kept.len() && kept[k] == export.reviews[i];
        assert(ids[k] == review_id);
    }
}

/// A review without an order number is passed over: no lookup is made for
/// it, it is attributed to no SKU, and the run stays as it was.
pub proof fn lemma_review_without_order_number_changes_nothing(
    run: RunModel,
    product_id: Seq<char>,
    review: ReviewModel,
    recorded: Seq<RecordedModel>,
)
    requires
        review.order_number is None,
    ensures
        attribution(product_id, review, recorded) is None,
        after_review(run, product_id, review, recorded) == run,
{
}

/// A review whose order resolves to no line item of the reviewed product
/// leaves the run as it was: neither the report nor the noted failures
/// change. This holds also where the order has no line item at all.
pub proof fn lemma_review_without_matching_item_changes_nothing(
    run: RunModel,
    product_id: Seq<char>,
    review: ReviewModel,
    items: Seq<LineItemModel>,
)
    requires
        matching_items(items, product_id).len() == 0,
    ensures
        selected_sku(items, product_id) is None,
        run.after_resolution(product_id, review, Ok(items)) == run,
{
}

/// A review whose order resolves to a line item of the reviewed product is
/// attributed to the SKU of the first such line item. Its identifier is
/// appended to the bucket of that SKU and to no other, and no failure is
/// noted.
pub proof fn lemma_review_with_matching_item_is_recorded_once(
    run: RunModel,
    product_id: Seq<char>,
    review: ReviewModel,
    items: Seq<LineItemModel>,
)
    requires
        matching_items(items, product_id).len() >= 1,
    ensures
        ({
            let sku = matching_items(items, product_id)[0].sku;
            let after = run.after_resolution(product_id, review, Ok(items));
            &&& selected_sku(items, product_id) == Some(sku)
            &&& after.report.bucket(sku) == run.report.bucket(sku).push(review.id)
            &&& forall|other: Seq<char>|
                other != sku ==> #[trigger] after.report.bucket(other) == run.report.bucket(other)
            &&& after.failures == run.failures
        }),
{
}

/// A failed lookup leaves the report as it was and is noted with the review
/// it was made for.
pub proof fn lemma_failed_lookup_is_noted(
    run: RunModel,
    product_id: Seq<char>,
    review: ReviewModel,
    error: ResolutionErrorModel,
)
    ensures
        run.after_resolution(product_id, review, Err(error)).report == run.report,
        run.after_resolution(product_id, review, Err(error)).failures == run.failures.push(
            FailureModel { review_id: review.id, error: error },
        ),
{
}

/// An identifier none of whose reviews is attributed stands nowhere in the
/// report of the run.
pub proof fn lemma_unattributed_review_is_not_reported(
    export: ExportModel,
    recorded: Seq<RecordedModel>,
    review_id: Seq<char>,
)
    requires
        forall|i: int|
            0 <= i < export.reviews.len() && (#[trigger] export.reviews[i]).id == review_id
                ==> attribution(export.product_id, export.reviews[i], recorded) is None,
    ensures
        forall|sku: Seq<char>|
            !(#[trigger] run_of(export, recorded).report.bucket(sku)).contains(review_id),
{
    assert forall|sku: Seq<char>|
        !(#[trigger] run_of(export, recorded).report.bucket(sku)).contains(review_id) by {
        lemma_reported_iff_attributed(export, recorded, sku, review_id);
    }
}

/// A review that is attributed to a SKU stands in the bucket of that SKU at
/// the end of the run, and in no other bucket, unless another review of the
/// same identifier is attributed elsewhere.
pub proof fn lemma_attributed_review_is_reported_under_its_sku(
    export: ExportModel,
    recorded: Seq<RecordedModel>,
    i: int,
    sku: Seq<char>,
)
    requires
        0 <= i < export.reviews.len(),
        attribution(export.product_id, export.reviews[i], recorded) == Some(sku),
        forall|j: int|
            0 <= j < export.reviews.len() && (#[trigger] export.reviews[j]).id
                == export.reviews[i].id ==> {
                ||| attribution(export.product_id, export.reviews[j], recorded) is None
                ||| attribution(export.product_id, export.reviews[j], recorded) == Some(sku)
            },
    ensures
        run_of(export, recorded).report.bucket(sku).contains(export.reviews[i].id),
        forall|other: Seq<char>|
            other != sku ==> !(#[trigger] run_of(export, recorded).report.bucket(other)).contains(
                export.reviews[i].id,
            ),
{
    let review_id = export.reviews[i].id;
    lemma_reported_iff_attributed(export, recorded, sku, review_id);
    assert forall|other: Seq<char>| other != sku implies !(#[trigger] run_of(
        export,
        recorded,
    ).report.bucket(other)).contains(review_id) by {
        lemma_reported_iff_attributed(export, recorded, other, review_id);
    }
}

/// Whether two recorded interfaces answer alike for every order that
/// `export` names.
pub open spec fn answer_alike(
    export: ExportModel,
    first: Seq<RecordedModel>,
    second: Seq<RecordedModel>,
) -> bool {
    forall|i: int|
        0 <= i < export.reviews.len() && (#[trigger] export.reviews[i]).order_number is Some
            ==> recorded_response(first, export.reviews[i].order_number->0) == recorded_response(
            second,
            export.reviews[i].order_number->0,
        )
}

/// Two runs over the same export agree after any number of reviews where the
/// interface answers alike.
pub proof fn lemma_runs_agree_after_first(
    export: ExportModel,
    first: Seq<RecordedModel>,
    second: Seq<RecordedModel>,
    n: nat,
)
    requires
        n <= export.reviews.len(),
        answer_alike(export, first, second),
    ensures
        run_of_first(export, first, n) == run_of_first(export, second, n),
    decreases n,
{
    if n > 0 {
        lemma_runs_agree_after_first(export, first, second, (n - 1) as nat);
        let review = export.reviews[n - 1];
        assert(review.order_number is Some ==> recorded_response(first, review.order_number->0)
            == recorded_response(second, review.order_number->0));
    }
}

/// A run repeats itself: over the same export, and with an interface that
/// answers alike for the orders of the export, it yields the same report,
/// which is rendered to the same text, and notes the same failures.
pub proof fn lemma_rerun_yields_same_outcome(
    export: ExportModel,
    first: Seq<RecordedModel>,
    second: Seq<RecordedModel>,
)
    requires
        answer_alike(export, first, second),
    ensures
        run_of(export, first) == run_of(export, second),
        run_of(export, first).report.rendered() == run_of(export, second).report.rendered(),
{
    lemma_runs_agree_after_first(export, first, second, export.reviews.len());
}

} // verus!
