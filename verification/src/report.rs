//! The per-variant report: for each SKU the identifiers of the reviews
//! attributed to it, in the order in which they were attributed.

use crate::order::{filter_by_product, selected_sku, LineItemModel, OrderLineItem};
use vstd::prelude::*;
use vstd::string::*;

verus! {

/// The reviews attributed to one SKU.
#[derive(Debug, PartialEq, Eq)]
pub struct Bucket {
    pub sku: String,
    pub review_ids: Vec<String>,
}

/// The mathematical value of a [`Bucket`].
pub struct BucketModel {
    pub sku: Seq<char>,
    pub review_ids: Seq<Seq<char>>,
}

impl View for Bucket {
    type V = BucketModel;

    open spec fn view(&self) -> BucketModel {
        BucketModel { sku: self.sku@, review_ids: self.review_ids.deep_view() }
    }
}

impl DeepView for Bucket {
    type V = BucketModel;

    open spec fn deep_view(&self) -> BucketModel {
        self@
    }
}

/// The mathematical value of a [`VariantReport`]: the mapping from SKU to the
/// review identifiers attributed to it, and the SKUs in the order in which
/// their buckets were created.
#[verifier::ext_equal]
pub struct ReportModel {
    pub skus: Seq<Seq<char>>,
    pub buckets: Map<Seq<char>, Seq<Seq<char>>>,
}

impl ReportModel {
    /// The report without any bucket.
    pub open spec fn empty() -> ReportModel {
        ReportModel { skus: Seq::empty(), buckets: Map::empty() }
    }

    /// The review identifiers attributed to `sku`; none where the report has
    /// no bucket for it.
    pub open spec fn bucket(self, sku: Seq<char>) -> Seq<Seq<char>> {
        if self.buckets.dom().contains(sku) {
            self.buckets[sku]
        } else {
            Seq::empty()
        }
    }

    /// The report after `review_id` was attributed to `sku`: the identifier is
    /// appended to the bucket of `sku`, which is created if absent.
    pub open spec fn record(self, sku: Seq<char>, review_id: Seq<char>) -> ReportModel {
        ReportModel {
            skus: if self.skus.contains(sku) {
                self.skus
            } else {
                self.skus.push(sku)
            },
            buckets: self.buckets.insert(sku, self.bucket(sku).push(review_id)),
        }
    }

    /// The SKUs listed are exactly those with a bucket, none is listed twice,
    /// and no bucket is empty.
    pub open spec fn wf(self) -> bool {
        &&& self.skus.no_duplicates()
        &&& forall|sku: Seq<char>| self.skus.contains(sku) <==> self.buckets.dom().contains(sku)
        &&& forall|sku: Seq<char>| #[trigger]
            self.buckets.dom().contains(sku) ==> self.buckets[sku].len() > 0
    }

    /// The report after the review `review_id` of product `product_id` was
    /// resolved to the line items `candidates`: the review is attributed to
    /// the SKU of the first line item of the product. Where no line item is of
    /// the product, the report stays as it is.
    pub open spec fn ingest(
        self,
        product_id: Seq<char>,
        review_id: Seq<char>,
        candidates: Seq<LineItemModel>,
    ) -> ReportModel {
        match selected_sku(candidates, product_id) {
            Some(sku) => self.record(sku, review_id),
            None => self,
        }
    }
}

/// The text `text` in double quotes, its special characters escaped, as the
/// `Debug` form of a string slice gives it.
pub uninterp spec fn debug_quoted(text: Seq<char>) -> Seq<char>;

/// Quotes `text` by formatting it with `{:?}`, which calls `Debug` for `str`.
///
/// Trusted: the result is a function of the text alone, named
/// [`debug_quoted`].
#[verifier::external_body]
fn quote(text: &str) -> (quoted: String)
    ensures
        quoted@ == debug_quoted(text@),
{
    format!("{:?}", text)
}

/// The quoted texts, separated by a comma and a space.
pub open spec fn quoted_list(texts: Seq<Seq<char>>) -> Seq<char>
    decreases texts.len(),
{
    if texts.len() == 0 {
        Seq::empty()
    } else if texts.len() == 1 {
        debug_quoted(texts[0])
    } else {
        quoted_list(texts.drop_last()) + ", "@ + debug_quoted(texts.last())
    }
}

/// One bucket as text: the quoted SKU, a colon, and the quoted review
/// identifiers in square brackets.
pub open spec fn bucket_text(sku: Seq<char>, review_ids: Seq<Seq<char>>) -> Seq<char> {
    debug_quoted(sku) + ": ["@ + quoted_list(review_ids) + "]"@
}

impl ReportModel {
    /// The first `n` buckets as text, in the order of their creation,
    /// separated by a comma and a space.
    pub open spec fn rendered_first(self, n: nat) -> Seq<char>
        decreases n,
    {
        if n == 0 {
            Seq::empty()
        } else if n == 1 {
            bucket_text(self.skus[0], self.bucket(self.skus[0]))
        } else {
            self.rendered_first((n - 1) as nat) + ", "@ + bucket_text(
                self.skus[n - 1],
                self.bucket(self.skus[n - 1]),
            )
        }
    }

    /// The report as text: its buckets in curly brackets.
    pub open spec fn rendered(self) -> Seq<char> {
        "{"@ + self.rendered_first(self.skus.len()) + "}"@
    }
}

/// Whether a listing of buckets has a bucket of `sku`.
spec fn has_bucket(entries: Seq<BucketModel>, sku: Seq<char>) -> bool {
    exists|i: int| 0 <= i < entries.len() && (#[trigger] entries[i]).sku == sku
}

/// The position of the bucket of `sku` in a listing that has one.
spec fn bucket_position(entries: Seq<BucketModel>, sku: Seq<char>) -> int {
    choose|i: int| 0 <= i < entries.len() && (#[trigger] entries[i]).sku == sku
}

/// The report that a listing of buckets stands for.
spec fn model_of(entries: Seq<BucketModel>) -> ReportModel {
    ReportModel {
        skus: Seq::new(entries.len(), |i: int| entries[i].sku),
        buckets: Map::new(
            |sku: Seq<char>| has_bucket(entries, sku),
            |sku: Seq<char>| entries[bucket_position(entries, sku)].review_ids,
        ),
    }
}

/// No SKU has two buckets in the listing, and no bucket is empty.
spec fn listing_wf(entries: Seq<BucketModel>) -> bool {
    &&& forall|i: int, j: int|
        0 <= i < j < entries.len() ==> (#[trigger] entries[i]).sku != (#[trigger] entries[j]).sku
    &&& forall|i: int| 0 <= i < entries.len() ==> (#[trigger] entries[i]).review_ids.len() > 0
}

/// A well-formed listing stands for a well-formed report, whose bucket of
/// the SKU at each position is the one listed there.
proof fn lemma_model_of_listing(entries: Seq<BucketModel>)
    requires
        listing_wf(entries),
    ensures
        model_of(entries).wf(),
        model_of(entries).skus.len() == entries.len(),
        forall|i: int|
            0 <= i < entries.len() ==> {
                &&& model_of(entries).skus[i] == (#[trigger] entries[i]).sku
                &&& model_of(entries).buckets.dom().contains(entries[i].sku)
                &&& model_of(entries).buckets[entries[i].sku] == entries[i].review_ids
            },
{
    let model = model_of(entries);
    assert forall|i: int| 0 <= i < entries.len() implies {
        &&& model.skus[i] == (#[trigger] entries[i]).sku
        &&& model.buckets.dom().contains(entries[i].sku)
        &&& model.buckets[entries[i].sku] == entries[i].review_ids
    } by {
        let sku = entries[i].sku;
        assert(has_bucket(entries, sku));
        let p = bucket_position(entries, sku);
        assert(0 <= p < entries.len() && entries[p].sku == sku);
        assert(p == i);
    }
    assert forall|i: int, j: int|
        0 <= i < model.skus.len() && 0 <= j < model.skus.len() && i != j implies model.skus[i]
        != model.skus[j] by {
        assert(entries[i].sku == model.skus[i]);
        assert(entries[j].sku == model.skus[j]);
    }
    assert forall|sku: Seq<char>| model.skus.contains(sku) <==> model.buckets.dom().contains(
        sku,
    ) by {
        if model.skus.contains(sku) {
            let i = choose|i: int| 0 <= i < model.skus.len() && model.skus[i] == sku;
            assert(entries[i].sku == sku);
        }
        if model.buckets.dom().contains(sku) {
            let p = bucket_position(entries, sku);
            assert(model.skus[p] == sku);
        }
    }
    assert forall|sku: Seq<char>| #[trigger]
        model.buckets.dom().contains(sku) implies model.buckets[sku].len() > 0 by {
        let p = bucket_position(entries, sku);
        assert(entries[p].review_ids.len() > 0);
    }
}

/// Recording a review in a well-formed listing: appended to the bucket of its
/// SKU where the listing has one.
proof fn lemma_record_existing(entries: Seq<BucketModel>, i: int, review_id: Seq<char>)
    requires
        listing_wf(entries),
        0 <= i < entries.len(),
    ensures
        listing_wf(
            entries.update(
                i,
                BucketModel {
                    sku: entries[i].sku,
                    review_ids: entries[i].review_ids.push(review_id),
                },
            ),
        ),
        model_of(
            entries.update(
                i,
                BucketModel {
                    sku: entries[i].sku,
                    review_ids: entries[i].review_ids.push(review_id),
                },
            ),
        ) == model_of(entries).record(entries[i].sku, review_id),
{
    let sku = entries[i].sku;
    let after = entries.update(
        i,
        BucketModel { sku: sku, review_ids: entries[i].review_ids.push(review_id) },
    );
    assert(listing_wf(after)) by {
        assert forall|a: int, b: int| 0 <= a < b < after.len() implies (#[trigger] after[a]).sku
            != (#[trigger] after[b]).sku by {
            assert(after[a].sku == entries[a].sku);
            assert(after[b].sku == entries[b].sku);
        }
        assert forall|a: int| 0 <= a < after.len() implies (#[trigger] after[a]).review_ids.len()
            > 0 by {
            if a != i {
                assert(after[a] == entries[a]);
            }
        }
    }
    lemma_model_of_listing(entries);
    lemma_model_of_listing(after);
    let old_model = model_of(entries);
    let new_model = model_of(after);
    let want = old_model.record(sku, review_id);
    assert(old_model.skus.contains(sku)) by {
        assert(old_model.skus[i] == sku);
    }
    assert(new_model.skus =~= want.skus) by {
        assert forall|a: int| 0 <= a < after.len() implies new_model.skus[a]
            == old_model.skus[a] by {
            assert(after[a].sku == entries[a].sku);
        }
    }
    assert(new_model.buckets =~= want.buckets) by {
        assert forall|k: Seq<char>| new_model.buckets.dom().contains(k)
            <==> want.buckets.dom().contains(k) by {
            if has_bucket(after, k) {
                let a = bucket_position(after, k);
                assert(entries[a].sku == k);
            }
            if has_bucket(entries, k) {
                let a = bucket_position(entries, k);
                assert(after[a].sku == k);
            }
        }
        assert forall|k: Seq<char>| new_model.buckets.dom().contains(k) implies
            new_model.buckets[k] == want.buckets[k] by {
            let a = bucket_position(after, k);
            assert(after[a].sku == k);
            assert(entries[a].sku == k);
            assert(new_model.buckets[after[a].sku] == after[a].review_ids);
            assert(old_model.buckets[entries[a].sku] == entries[a].review_ids);
            if k == sku {
                assert(a == i);
            } else {
                assert(a != i);
                assert(after[a] == entries[a]);
            }
        }
    }
}

/// Recording a review in a well-formed listing: a new bucket at the end where
/// the listing has none for its SKU.
proof fn lemma_record_new(entries: Seq<BucketModel>, sku: Seq<char>, review_id: Seq<char>)
    requires
        listing_wf(entries),
        !has_bucket(entries, sku),
    ensures
        listing_wf(entries.push(BucketModel { sku: sku, review_ids: seq![review_id] })),
        model_of(entries.push(BucketModel { sku: sku, review_ids: seq![review_id] })) == model_of(
            entries,
        ).record(sku, review_id),
{
    let after = entries.push(BucketModel { sku: sku, review_ids: seq![review_id] });
    let last = entries.len() as int;
    assert(listing_wf(after)) by {
        assert forall|a: int, b: int| 0 <= a < b < after.len() implies (#[trigger] after[a]).sku
            != (#[trigger] after[b]).sku by {
            assert(after[a] == entries[a]);
            if b < last {
                assert(after[b] == entries[b]);
            }
        }
        assert forall|a: int| 0 <= a < after.len() implies (#[trigger] after[a]).review_ids.len()
            > 0 by {
            if a < last {
                assert(after[a] == entries[a]);
            }
        }
    }
    lemma_model_of_listing(entries);
    lemma_model_of_listing(after);
    let old_model = model_of(entries);
    let new_model = model_of(after);
    let want = old_model.record(sku, review_id);
    assert(!old_model.buckets.dom().contains(sku));
    assert(!old_model.skus.contains(sku));
    assert(Seq::<Seq<char>>::empty().push(review_id) =~= seq![review_id]);
    assert(new_model.skus =~= want.skus) by {
        assert forall|a: int| 0 <= a < after.len() implies new_model.skus[a] == want.skus[a] by {
            if a < last {
                assert(after[a] == entries[a]);
            }
        }
    }
    assert(new_model.buckets =~= want.buckets) by {
        assert forall|k: Seq<char>| new_model.buckets.dom().contains(k)
            <==> want.buckets.dom().contains(k) by {
            if has_bucket(after, k) {
                let a = bucket_position(after, k);
                if a < last {
                    assert(entries[a].sku == k);
                }
            }
            if has_bucket(entries, k) {
                let a = bucket_position(entries, k);
                assert(after[a].sku == k);
            }
            if k == sku {
                assert(after[last].sku == k);
            }
        }
        assert forall|k: Seq<char>| new_model.buckets.dom().contains(k) implies
            new_model.buckets[k] == want.buckets[k] by {
            let a = bucket_position(after, k);
            assert(after[a].sku == k);
            assert(new_model.buckets[after[a].sku] == after[a].review_ids);
            if a < last {
                assert(after[a] == entries[a]);
                assert(old_model.buckets[entries[a].sku] == entries[a].review_ids);
            }
        }
    }
}

/// The report of one run: SKU by SKU, the identifiers of the reviews that
/// were attributed to it.
#[derive(Debug)]
pub struct VariantReport {
    buckets: Vec<Bucket>,
}

impl View for VariantReport {
    type V = ReportModel;

    closed spec fn view(&self) -> ReportModel {
        model_of(self.buckets.deep_view())
    }
}

impl VariantReport {
    /// The invariant of the report: no SKU has two buckets and no bucket is
    /// empty.
    pub closed spec fn wf(&self) -> bool {
        listing_wf(self.buckets.deep_view())
    }

    /// The value of a well-formed report is well-formed.
    pub proof fn lemma_view_wf(&self)
        requires
            self.wf(),
        ensures
            self@.wf(),
    {
        lemma_model_of_listing(self.buckets.deep_view());
    }

    /// The report without any bucket.
    pub fn new() -> (report: VariantReport)
        ensures
            report.wf(),
            report@ == ReportModel::empty(),
    {
        let report = VariantReport { buckets: Vec::new() };
        proof {
            let entries = report.buckets.deep_view();
            assert(entries.len() == 0);
            assert(model_of(entries).skus =~= ReportModel::empty().skus);
            assert(model_of(entries).buckets =~= ReportModel::empty().buckets);
        }
        report
    }

    /// The number of buckets.
    pub fn len(&self) -> (n: usize)
        ensures
            n == self@.skus.len(),
    {
        self.buckets.len()
    }

    /// Whether the report has no bucket.
    pub fn is_empty(&self) -> (empty: bool)
        ensures
            empty == (self@.skus.len() == 0),
    {
        self.buckets.len() == 0
    }

    /// The SKU of the `i`-th bucket, counted in the order of creation.
    pub fn sku_at(&self, i: usize) -> (sku: &String)
        requires
            self.wf(),
            i < self@.skus.len(),
        ensures
            sku@ == self@.skus[i as int],
    {
        &self.buckets[i].sku
    }

    /// The review identifiers of the `i`-th bucket.
    pub fn review_ids_at(&self, i: usize) -> (review_ids: &Vec<String>)
        requires
            self.wf(),
            i < self@.skus.len(),
        ensures
            review_ids.deep_view() == self@.bucket(self@.skus[i as int]),
    {
        proof {
            lemma_model_of_listing(self.buckets.deep_view());
            assert(self.buckets.deep_view()[i as int] == self.buckets[i as int]@);
        }
        &self.buckets[i].review_ids
    }

    /// The buckets in the order of their creation.
    pub fn buckets(&self) -> (buckets: &Vec<Bucket>)
        requires
            self.wf(),
        ensures
            buckets.len() == self@.skus.len(),
            forall|i: int|
                0 <= i < buckets.len() ==> (#[trigger] buckets[i])@ == (BucketModel {
                    sku: self@.skus[i],
                    review_ids: self@.bucket(self@.skus[i]),
                }),
    {
        proof {
            lemma_model_of_listing(self.buckets.deep_view());
            assert forall|i: int| 0 <= i < self.buckets.len() implies (#[trigger] self.buckets[i])@
                == (BucketModel {
                sku: self@.skus[i],
                review_ids: self@.bucket(self@.skus[i]),
            }) by {
                assert(self.buckets.deep_view()[i] == self.buckets[i]@);
            }
        }
        &self.buckets
    }

    /// The position of the bucket of `sku`, if the report has one.
    pub fn position(&self, sku: &String) -> (found: Option<usize>)
        requires
            self.wf(),
        ensures
            match found {
                Some(i) => i < self@.skus.len() && self@.skus[i as int] == sku@,
                None => !self@.buckets.dom().contains(sku@),
            },
    {
        let mut i: usize = 0;
        while i < self.buckets.len()
            invariant
                i <= self.buckets.len(),
                forall|j: int| 0 <= j < i ==> (#[trigger] self.buckets.deep_view()[j]).sku != sku@,
            decreases self.buckets.len() - i,
        {
            if self.buckets[i].sku == *sku {
                assert(self.buckets.deep_view()[i as int] == self.buckets[i as int]@);
                return Some(i);
            }
            assert(self.buckets.deep_view()[i as int] == self.buckets[i as int]@);
            i = i + 1;
        }
        None
    }

    /// The review identifiers attributed to `sku`, if the report has a bucket
    /// for it.
    pub fn get(&self, sku: &String) -> (found: Option<&Vec<String>>)
        requires
            self.wf(),
        ensures
            match found {
                Some(review_ids) => self@.buckets.dom().contains(sku@) && review_ids.deep_view()
                    == self@.buckets[sku@],
                None => !self@.buckets.dom().contains(sku@),
            },
    {
        match self.position(sku) {
            Some(i) => {
                proof {
                    lemma_model_of_listing(self.buckets.deep_view());
                    assert(self.buckets.deep_view()[i as int] == self.buckets[i as int]@);
                }
                Some(&self.buckets[i].review_ids)
            },
            None => None,
        }
    }

    /// Attributes `review_id` to `sku`: appends it to the bucket of `sku`,
    /// creating the bucket behind the existing ones if there is none.
    pub fn record(&mut self, sku: &String, review_id: &String)
        requires
            old(self).wf(),
        ensures
            final(self).wf(),
            final(self)@ == old(self)@.record(sku@, review_id@),
    {
        let ghost entries = self.buckets.deep_view();
        match self.position(sku) {
            Some(i) => {
                proof {
                    lemma_model_of_listing(entries);
                    lemma_record_existing(entries, i as int, review_id@);
                    assert(entries[i as int] == self.buckets[i as int]@);
                }
                let ghost ids = self.buckets[i as int].review_ids.deep_view();
                self.buckets[i].review_ids.push(review_id.clone());
                proof {
                    assert(self.buckets[i as int].review_ids.deep_view() =~= ids.push(review_id@));
                    assert(self.buckets.deep_view() =~= entries.update(
                        i as int,
                        BucketModel { sku: entries[i as int].sku, review_ids: ids.push(review_id@) },
                    ));
                }
            },
            None => {
                proof {
                    lemma_record_new(entries, sku@, review_id@);
                }
                let mut review_ids: Vec<String> = Vec::new();
                review_ids.push(review_id.clone());
                let bucket = Bucket { sku: sku.clone(), review_ids };
                proof {
                    assert(bucket@.review_ids =~= seq![review_id@]);
                }
                self.buckets.push(bucket);
                proof {
                    assert(self.buckets.deep_view() =~= entries.push(
                        BucketModel { sku: sku@, review_ids: seq![review_id@] },
                    ));
                }
            },
        }
    }

    /// Takes in the line items that the order behind the review `review_id`
    /// resolved to: keeps those of the product `product_id` and attributes
    /// the review to the SKU of the first of them. A review without such a
    /// line item leaves the report unchanged.
    pub fn ingest(
        &mut self,
        product_id: &String,
        review_id: &String,
        candidates: &Vec<OrderLineItem>,
    )
        requires
            old(self).wf(),
        ensures
            final(self).wf(),
            final(self)@ == old(self)@.ingest(product_id@, review_id@, candidates.deep_view()),
    {
        let matching = filter_by_product(candidates, product_id);
        if matching.len() > 0 {
            assert(matching.deep_view()[0] == matching[0]@);
            self.record(&matching[0].sku, review_id);
        }
    }

    /// The report as text for a reader: `{"SKU": ["id", "id"], "SKU": ["id"]}`,
    /// the buckets in the order of their creation.
    pub fn render(&self) -> (text: String)
        requires
            self.wf(),
        ensures
            text@ == self@.rendered(),
    {
        let ghost model = self@;
        let mut body = String::new();
        let mut i: usize = 0;
        proof {
            lemma_model_of_listing(self.buckets.deep_view());
        }
        while i < self.buckets.len()
            invariant
                self.wf(),
                model == self@,
                i <= self.buckets.len(),
                self.buckets.len() == model.skus.len(),
                body@ == model.rendered_first(i as nat),
            decreases self.buckets.len() - i,
        {
            let sku = self.sku_at(i);
            let review_ids = self.review_ids_at(i);
            let ghost before = body@;
            if i > 0 {
                body.append(", ");
            }
            let entry = render_bucket(sku, review_ids);
            body.append(entry.as_str());
            proof {
                if i > 0 {
                    assert(body@ =~= before + ", "@ + entry@);
                } else {
                    assert(body@ =~= entry@);
                }
            }
            i = i + 1;
        }
        let mut text = String::from_str("{");
        text.append(body.as_str());
        text.append("}");
        text
    }
}

/// Renders the quoted texts, separated by a comma and a space.
pub fn render_list(texts: &Vec<String>) -> (text: String)
    ensures
        text@ == quoted_list(texts.deep_view()),
{
    let ghost all = texts.deep_view();
    let mut text = String::new();
    let mut i: usize = 0;
    proof {
        assert(all.take(0) =~= Seq::<Seq<char>>::empty());
    }
    while i < texts.len()
        invariant
            i <= texts.len(),
            all == texts.deep_view(),
            text@ == quoted_list(all.take(i as int)),
        decreases texts.len() - i,
    {
        let ghost before = text@;
        if i > 0 {
            text.append(", ");
        }
        let quoted = quote(texts[i].as_str());
        text.append(quoted.as_str());
        proof {
            let next = all.take(i as int + 1);
            assert(next.drop_last() =~= all.take(i as int));
            assert(next.last() == texts[i as int]@);
            if i > 0 {
                assert(text@ =~= before + ", "@ + quoted@);
            } else {
                assert(text@ =~= quoted@);
                assert(next[0] == texts[i as int]@);
            }
        }
        i = i + 1;
    }
    proof {
        assert(all.take(texts.len() as int) =~= all);
    }
    text
}

/// Renders one bucket: the quoted SKU, a colon, and the quoted review
/// identifiers in square brackets.
pub fn render_bucket(sku: &String, review_ids: &Vec<String>) -> (text: String)
    ensures
        text@ == bucket_text(sku@, review_ids.deep_view()),
{
    let mut text = quote(sku.as_str());
    text.append(": [");
    let list = render_list(review_ids);
    text.append(list.as_str());
    text.append("]");
    text
}

} // verus!
