//! The orchestrator: a state machine that walks the reviews of an export,
//! asks for the lookup of each order, and folds the outcomes into the report.
//!
//! The machine decides; its driver performs the lookups. A driver asks for
//! the next request, looks the order up, and delivers the outcome, until no
//! request is left.

use crate::order::{
    order_name_query, order_name_query_text, resolution_model, OrderLineItem, ResolutionError,
    ResolutionErrorModel, ResolutionModel,
};
use crate::report::{ReportModel, VariantReport};
use crate::review::{Export, ExportModel, ProductReview, ReviewModel};
use vstd::prelude::*;
use vstd::string::*;

verus! {

/// Where a run stands.
#[derive(Debug, Clone, Copy, PartialEq, Eq, Structural)]
pub enum Phase {
    /// No export was handed in yet.
    Idle,
    /// The reviews are being walked.
    Resolving,
    /// Every review was dealt with.
    Done,
}

/// The lookup that the machine asks its driver for.
#[derive(Debug, PartialEq, Eq)]
pub struct ResolveRequest {
    pub review_id: String,
    pub order_number: String,
    /// The filter that selects the order in the commerce interface.
    pub query: String,
}

/// The mathematical value of a [`ResolveRequest`].
pub struct RequestModel {
    pub review_id: Seq<char>,
    pub order_number: Seq<char>,
    pub query: Seq<char>,
}

impl View for ResolveRequest {
    type V = RequestModel;

    open spec fn view(&self) -> RequestModel {
        RequestModel {
            review_id: self.review_id@,
            order_number: self.order_number@,
            query: self.query@,
        }
    }
}

/// A lookup that failed, and the review it was made for.
#[derive(Debug, PartialEq, Eq)]
pub struct ResolutionFailure {
    pub review_id: String,
    pub error: ResolutionError,
}

/// The mathematical value of a [`ResolutionFailure`].
pub struct FailureModel {
    pub review_id: Seq<char>,
    pub error: ResolutionErrorModel,
}

impl View for ResolutionFailure {
    type V = FailureModel;

    open spec fn view(&self) -> FailureModel {
        FailureModel { review_id: self.review_id@, error: self.error@ }
    }
}

impl DeepView for ResolutionFailure {
    type V = FailureModel;

    open spec fn deep_view(&self) -> FailureModel {
        self@
    }
}

/// What a run has produced: the report, and the lookups that failed, in the
/// order of their reviews.
#[derive(Debug)]
pub struct RunOutcome {
    pub report: VariantReport,
    pub failures: Vec<ResolutionFailure>,
}

/// The mathematical value of a [`RunOutcome`].
#[verifier::ext_equal]
pub struct RunModel {
    pub report: ReportModel,
    pub failures: Seq<FailureModel>,
}

impl View for RunOutcome {
    type V = RunModel;

    open spec fn view(&self) -> RunModel {
        RunModel { report: self.report@, failures: self.failures.deep_view() }
    }
}

impl RunModel {
    /// The run before any review.
    pub open spec fn empty() -> RunModel {
        RunModel { report: ReportModel::empty(), failures: Seq::empty() }
    }

    /// The run after the lookup for `review` came to `resolution`. Line items
    /// are taken into the report, also where there are none; a failure is
    /// noted and leaves the report as it is.
    pub open spec fn after_resolution(
        self,
        product_id: Seq<char>,
        review: ReviewModel,
        resolution: ResolutionModel,
    ) -> RunModel {
        match resolution {
            Ok(items) => RunModel {
                report: self.report.ingest(product_id, review.id, items),
                failures: self.failures,
            },
            Err(error) => RunModel {
                report: self.report,
                failures: self.failures.push(FailureModel { review_id: review.id, error: error }),
            },
        }
    }
}

/// The position of the first review at or behind `from` that has an order
/// number; the number of reviews where there is none.
pub open spec fn next_resolvable(reviews: Seq<ReviewModel>, from: nat) -> nat
    decreases reviews.len() - from,
{
    if from >= reviews.len() {
        reviews.len()
    } else if reviews[from as int].order_number is Some {
        from
    } else {
        next_resolvable(reviews, from + 1)
    }
}

/// `next_resolvable` passes over reviews without an order number only, and
/// stops at one that has an order number or at the end.
pub proof fn lemma_next_resolvable(reviews: Seq<ReviewModel>, from: nat)
    requires
        from <= reviews.len(),
    ensures
        from <= next_resolvable(reviews, from) <= reviews.len(),
        forall|k: int|
            from <= k < next_resolvable(reviews, from) ==> (#[trigger] reviews[k]).order_number
                is None,
        next_resolvable(reviews, from) < reviews.len() ==> reviews[next_resolvable(
            reviews,
            from,
        ) as int].order_number is Some,
    decreases reviews.len() - from,
{
    if from < reviews.len() && reviews[from as int].order_number is None {
        lemma_next_resolvable(reviews, from + 1);
    }
}

/// The mathematical value of a [`Pipeline`].
#[verifier::ext_equal]
pub struct PipelineModel {
    pub phase: Phase,
    pub product_id: Seq<char>,
    pub reviews: Seq<ReviewModel>,
    /// The number of reviews that were dealt with.
    pub cursor: nat,
    pub run: RunModel,
}

impl PipelineModel {
    /// The machine before an export was handed in.
    pub open spec fn idle() -> PipelineModel {
        PipelineModel {
            phase: Phase::Idle,
            product_id: Seq::empty(),
            reviews: Seq::empty(),
            cursor: 0,
            run: RunModel::empty(),
        }
    }

    /// The machine at the start of the walk over `export`.
    pub open spec fn started(export: ExportModel) -> PipelineModel {
        PipelineModel {
            phase: Phase::Resolving,
            product_id: export.product_id,
            reviews: export.reviews,
            cursor: 0,
            run: RunModel::empty(),
        }
    }

    /// The machine after it was asked for the next request: the reviews
    /// without an order number are passed over, and the walk is done where no
    /// review is left.
    pub open spec fn polled(self) -> PipelineModel {
        if self.phase == Phase::Resolving {
            let next = next_resolvable(self.reviews, self.cursor);
            PipelineModel {
                phase: if next >= self.reviews.len() {
                    Phase::Done
                } else {
                    Phase::Resolving
                },
                cursor: next,
                ..self
            }
        } else {
            self
        }
    }

    /// Whether the machine waits for the outcome of a lookup: the walk stands
    /// at a review that has an order number.
    pub open spec fn awaiting(self) -> bool {
        &&& self.phase == Phase::Resolving
        &&& self.cursor < self.reviews.len()
        &&& self.reviews[self.cursor as int].order_number is Some
    }

    /// The request for the review at which the walk stands.
    pub open spec fn request(self) -> RequestModel {
        let review = self.reviews[self.cursor as int];
        RequestModel {
            review_id: review.id,
            order_number: review.order_number->0,
            query: order_name_query_text(review.order_number->0),
        }
    }

    /// The machine after the outcome of the awaited lookup was delivered.
    pub open spec fn delivered(self, resolution: ResolutionModel) -> PipelineModel {
        PipelineModel {
            cursor: self.cursor + 1,
            run: self.run.after_resolution(
                self.product_id,
                self.reviews[self.cursor as int],
                resolution,
            ),
            ..self
        }
    }
}

/// The orchestrator of one run.
#[derive(Debug)]
pub struct Pipeline {
    phase: Phase,
    product_id: String,
    reviews: Vec<ProductReview>,
    cursor: usize,
    report: VariantReport,
    failures: Vec<ResolutionFailure>,
}

impl View for Pipeline {
    type V = PipelineModel;

    closed spec fn view(&self) -> PipelineModel {
        PipelineModel {
            phase: self.phase,
            product_id: self.product_id@,
            reviews: self.reviews.deep_view(),
            cursor: self.cursor as nat,
            run: RunModel { report: self.report@, failures: self.failures.deep_view() },
        }
    }
}

impl Pipeline {
    /// The invariant of the machine: the walk stands within the reviews, at
    /// their end once it is done, and the report is well-formed.
    pub closed spec fn wf(&self) -> bool {
        &&& self.cursor <= self.reviews.len()
        &&& self.report.wf()
        &&& self.phase == Phase::Done ==> self.cursor == self.reviews.len()
    }

    /// A machine that waits for an export.
    pub fn new() -> (pipeline: Pipeline)
        ensures
            pipeline.wf(),
            pipeline@ == PipelineModel::idle(),
    {
        let pipeline = Pipeline {
            phase: Phase::Idle,
            product_id: String::new(),
            reviews: Vec::new(),
            cursor: 0,
            report: VariantReport::new(),
            failures: Vec::new(),
        };
        assert(pipeline.reviews.deep_view() =~= Seq::<ReviewModel>::empty());
        assert(pipeline.failures.deep_view() =~= Seq::<FailureModel>::empty());
        pipeline
    }

    /// Where the run stands.
    pub fn phase(&self) -> (phase: Phase)
        ensures
            phase == self@.phase,
    {
        self.phase
    }

    /// Starts the walk over `export`. Only an idle machine starts; any other
    /// stays as it is and answers `false`.
    pub fn begin(&mut self, export: Export) -> (started: bool)
        requires
            old(self).wf(),
        ensures
            final(self).wf(),
            started == (old(self)@.phase == Phase::Idle),
            started ==> final(self)@ == PipelineModel::started(export@),
            !started ==> final(self)@ == old(self)@,
    {
        match self.phase {
            Phase::Idle => {
                self.phase = Phase::Resolving;
                self.product_id = export.product_id;
                self.reviews = export.reviews;
                self.cursor = 0;
                self.report = VariantReport::new();
                self.failures = Vec::new();
                assert(self.failures.deep_view() =~= Seq::<FailureModel>::empty());
                true
            },
            _ => false,
        }
    }

    /// The next lookup to make, if any. Reviews without an order number are
    /// passed over: no lookup is asked for them. When no review is left the
    /// run is done. Asking again before the outcome was delivered gives the
    /// same request.
    pub fn next_request(&mut self) -> (request: Option<ResolveRequest>)
        requires
            old(self).wf(),
        ensures
            final(self).wf(),
            final(self)@ == old(self)@.polled(),
            match request {
                Some(request) => final(self)@.awaiting() && request@ == final(self)@.request(),
                None => !final(self)@.awaiting(),
            },
    {
        match self.phase {
            Phase::Resolving => {},
            _ => {
                return None;
            },
        }
        let ghost start = self.cursor as nat;
        let ghost reviews = self.reviews.deep_view();
        while self.cursor < self.reviews.len()
            invariant
                self.wf(),
                self.phase == Phase::Resolving,
                start <= self.cursor <= self.reviews.len(),
                reviews == self.reviews.deep_view(),
                reviews == old(self).reviews.deep_view(),
                start == old(self).cursor,
                old(self).phase == Phase::Resolving,
                self.product_id == old(self).product_id,
                self.report == old(self).report,
                self.failures == old(self).failures,
                next_resolvable(reviews, start) == next_resolvable(reviews, self.cursor as nat),
            decreases self.reviews.len() - self.cursor,
        {
            let review = &self.reviews[self.cursor];
            assert(reviews[self.cursor as int] == review@);
            match &review.order_number {
                Some(order_number) => {
                    let request = ResolveRequest {
                        review_id: review.id.clone(),
                        order_number: order_number.clone(),
                        query: order_name_query(order_number.as_str()),
                    };
                    assert(next_resolvable(reviews, self.cursor as nat) == self.cursor);
                    assert(self@ =~= old(self)@.polled());
                    return Some(request);
                },
                None => {
                    self.cursor = self.cursor + 1;
                },
            }
        }
        self.phase = Phase::Done;
        None
    }

    /// Takes the outcome of the awaited lookup. Line items go into the
    /// report; a failure is noted, and the walk goes on to the next review
    /// either way. A machine that awaits no lookup stays as it is and answers
    /// `false`.
    pub fn deliver(&mut self, resolution: Result<Vec<OrderLineItem>, ResolutionError>) -> (accepted:
        bool)
        requires
            old(self).wf(),
        ensures
            final(self).wf(),
            accepted == old(self)@.awaiting(),
            accepted ==> final(self)@ == old(self)@.delivered(resolution_model(resolution)),
            !accepted ==> final(self)@ == old(self)@,
    {
        match self.phase {
            Phase::Resolving => {},
            _ => {
                return false;
            },
        }
        if self.cursor >= self.reviews.len() {
            return false;
        }
        assert(self.reviews.deep_view()[self.cursor as int] == self.reviews[self.cursor as int]@);
        if self.reviews[self.cursor].order_number.is_none() {
            return false;
        }
        match resolution {
            Ok(items) => {
                self.report.ingest(&self.product_id, &self.reviews[self.cursor].id, &items);
            },
            Err(error) => {
                let ghost before = self.failures.deep_view();
                let failure = ResolutionFailure {
                    review_id: self.reviews[self.cursor].id.clone(),
                    error,
                };
                self.failures.push(failure);
                assert(self.failures.deep_view() =~= before.push(failure@));
            },
        }
        self.cursor = self.cursor + 1;
        true
    }

    /// The report as it stands. It is valid at any point of a run.
    pub fn report(&self) -> (report: &VariantReport)
        requires
            self.wf(),
        ensures
            report.wf(),
            report@ == self@.run.report,
    {
        &self.report
    }

    /// The lookups that failed so far.
    pub fn failures(&self) -> (failures: &Vec<ResolutionFailure>)
        ensures
            failures.deep_view() == self@.run.failures,
    {
        &self.failures
    }

    /// Ends the run and hands out what it produced so far.
    pub fn finish(self) -> (outcome: RunOutcome)
        requires
            self.wf(),
        ensures
            outcome.report.wf(),
            outcome@ == self@.run,
    {
        RunOutcome { report: self.report, failures: self.failures }
    }
}

} // verus!
