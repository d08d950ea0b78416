//! Reviews and their extraction from the rows of a review export.

use vstd::prelude::*;
use vstd::string::*;

verus! {

/// The column of a row that holds the review identifier.
pub const REVIEW_ID_COLUMN: usize = 1;

/// The column of a row that holds the review's title.
pub const TITLE_COLUMN: usize = 8;

/// The column of a row that holds the review's text.
pub const CONTENT_COLUMN: usize = 9;

/// The column of a row that holds the number of the order behind the review.
pub const ORDER_NUMBER_COLUMN: usize = 22;

/// The column of a row that holds the identifier of the reviewed product.
pub const PRODUCT_ID_COLUMN: usize = 30;

/// The number of columns that every row must have.
pub const REQUIRED_COLUMNS: usize = 31;

/// One review of the export.
#[derive(Debug, PartialEq, Eq)]
pub struct ProductReview {
    pub id: String,
    pub order_number: Option<String>,
    pub title: String,
    pub content: String,
}

/// The mathematical value of a [`ProductReview`].
pub struct ReviewModel {
    pub id: Seq<char>,
    pub order_number: Option<Seq<char>>,
    pub title: Seq<char>,
    pub content: Seq<char>,
}

impl View for ProductReview {
    type V = ReviewModel;

    open spec fn view(&self) -> ReviewModel {
        ReviewModel {
            id: self.id@,
            order_number: match self.order_number {
                Some(number) => Some(number@),
                None => None,
            },
            title: self.title@,
            content: self.content@,
        }
    }
}

impl DeepView for ProductReview {
    type V = ReviewModel;

    open spec fn deep_view(&self) -> ReviewModel {
        self@
    }
}

/// What an export holds: the identifier of the reviewed product and the
/// reviews in the order of their rows.
#[derive(Debug, PartialEq, Eq)]
pub struct Export {
    pub product_id: String,
    pub reviews: Vec<ProductReview>,
}

/// The mathematical value of an [`Export`].
pub struct ExportModel {
    pub product_id: Seq<char>,
    pub reviews: Seq<ReviewModel>,
}

impl View for Export {
    type V = ExportModel;

    open spec fn view(&self) -> ExportModel {
        ExportModel { product_id: self.product_id@, reviews: self.reviews.deep_view() }
    }
}

/// Why an export could not be read.
#[derive(Debug, PartialEq, Eq)]
pub enum FormatError {
    /// The data is not a table of comma-separated values.
    Malformed { cause: String },
    /// The row at position `row`, counted from 0 behind the header, has only
    /// `found` columns.
    MissingColumns { row: usize, found: usize },
}

/// A row of an export: its fields from left to right.
pub type RowModel = Seq<Seq<char>>;

/// Whether the row has every column of the layout.
pub open spec fn has_required_columns(row: RowModel) -> bool {
    row.len() >= REQUIRED_COLUMNS
}

/// Whether the row names the reviewed product.
pub open spec fn carries_product_id(row: RowModel) -> bool {
    row.len() > PRODUCT_ID_COLUMN && row[PRODUCT_ID_COLUMN as int].len() > 0
}

/// The review that a row with every column stands for. An empty order number
/// means that none is known.
pub open spec fn review_of_row(row: RowModel) -> ReviewModel {
    ReviewModel {
        id: row[REVIEW_ID_COLUMN as int],
        order_number: if row[ORDER_NUMBER_COLUMN as int].len() == 0 {
            None
        } else {
            Some(row[ORDER_NUMBER_COLUMN as int])
        },
        title: row[TITLE_COLUMN as int],
        content: row[CONTENT_COLUMN as int],
    }
}

/// Whether row `i` is the first of `rows` that names the reviewed product.
pub open spec fn is_first_carrier(rows: Seq<RowModel>, i: int) -> bool {
    &&& 0 <= i < rows.len()
    &&& carries_product_id(rows[i])
    &&& forall|j: int| 0 <= j < i ==> !carries_product_id(#[trigger] rows[j])
}

/// The product identifier of an export: the one in the first row that names
/// the product; empty where no row does.
pub open spec fn captured_product_id(rows: Seq<RowModel>) -> Seq<char> {
    if exists|i: int| is_first_carrier(rows, i) {
        rows[choose|i: int| is_first_carrier(rows, i)][PRODUCT_ID_COLUMN as int]
    } else {
        Seq::empty()
    }
}

/// Whether row `i` is the first of `rows` that lacks a column.
pub open spec fn is_first_short_row(rows: Seq<RowModel>, i: int) -> bool {
    &&& 0 <= i < rows.len()
    &&& !has_required_columns(rows[i])
    &&& forall|j: int| 0 <= j < i ==> has_required_columns(#[trigger] rows[j])
}

/// The export that rows with every column stand for.
pub open spec fn export_of_rows(rows: Seq<RowModel>) -> ExportModel {
    ExportModel {
        product_id: captured_product_id(rows),
        reviews: Seq::new(rows.len(), |i: int| review_of_row(rows[i])),
    }
}

/// The first row that names the product decides the product identifier.
pub proof fn lemma_captured_from_first_carrier(rows: Seq<RowModel>, i: int)
    requires
        is_first_carrier(rows, i),
    ensures
        captured_product_id(rows) == rows[i][PRODUCT_ID_COLUMN as int],
{
    let k = choose|k: int| is_first_carrier(rows, k);
    assert(is_first_carrier(rows, k));
    if k < i {
        assert(!carries_product_id(rows[k]));
    }
    if i < k {
        assert(!carries_product_id(rows[i]));
    }
}

/// Where no row names the product, the product identifier is empty.
pub proof fn lemma_captured_without_carrier(rows: Seq<RowModel>)
    requires
        forall|i: int| 0 <= i < rows.len() ==> !carries_product_id(#[trigger] rows[i]),
    ensures
        captured_product_id(rows) == Seq::<char>::empty(),
{
    if exists|i: int| is_first_carrier(rows, i) {
        let k = choose|k: int| is_first_carrier(rows, k);
        assert(carries_product_id(rows[k]));
    }
}

/// Once a row has named the product, the rows behind it do not change the
/// product identifier, whatever they hold in that column.
pub proof fn lemma_captured_product_id_is_fixed(rows: Seq<RowModel>, later: Seq<RowModel>)
    requires
        captured_product_id(rows).len() > 0,
    ensures
        captured_product_id(rows + later) == captured_product_id(rows),
{
    if exists|i: int| is_first_carrier(rows, i) {
        let k = choose|k: int| is_first_carrier(rows, k);
        lemma_captured_from_first_carrier(rows, k);
        let all = rows + later;
        assert(all[k] == rows[k]);
        assert forall|j: int| 0 <= j < k implies !carries_product_id(#[trigger] all[j]) by {
            assert(all[j] == rows[j]);
        }
        lemma_captured_from_first_carrier(all, k);
    }
}

/// Reads the reviews and the product identifier from the rows of an export.
///
/// Every row must have all the columns of the layout; the first row that has
/// not is reported. The reviews keep the order of the rows, and none is
/// dropped or merged. The product identifier is taken from the first row that
/// names the product.
pub fn extract_reviews(rows: &Vec<Vec<String>>) -> (result: Result<Export, FormatError>)
    ensures
        result is Ok <==> forall|i: int|
            0 <= i < rows.len() ==> has_required_columns(#[trigger] rows.deep_view()[i]),
        match result {
            Ok(export) => export@ == export_of_rows(rows.deep_view()),
            Err(FormatError::MissingColumns { row, found }) => {
                &&& is_first_short_row(rows.deep_view(), row as int)
                &&& found == rows.deep_view()[row as int].len()
            },
            Err(FormatError::Malformed { .. }) => false,
        },
{
    let ghost table = rows.deep_view();
    let mut reviews: Vec<ProductReview> = Vec::new();
    let mut product_id = String::new();
    let mut i: usize = 0;
    while i < rows.len()
        invariant
            i <= rows.len(),
            table == rows.deep_view(),
            forall|j: int| 0 <= j < i ==> has_required_columns(#[trigger] table[j]),
            reviews.deep_view() == Seq::new(i as nat, |j: int| review_of_row(table[j])),
            product_id@.len() == 0 ==> forall|j: int|
                0 <= j < i ==> !carries_product_id(#[trigger] table[j]),
            product_id@.len() > 0 ==> exists|k: int|
                k < i && is_first_carrier(table, k) && table[k][PRODUCT_ID_COLUMN as int]
                    == product_id@,
        decreases rows.len() - i,
    {
        let row = &rows[i];
        assert(table[i as int] == row.deep_view());
        if row.len() < REQUIRED_COLUMNS {
            return Err(FormatError::MissingColumns { row: i, found: row.len() });
        }
        proof {
            assert(row.deep_view()[PRODUCT_ID_COLUMN as int] == row[PRODUCT_ID_COLUMN as int]@);
            assert(row.deep_view()[REVIEW_ID_COLUMN as int] == row[REVIEW_ID_COLUMN as int]@);
            assert(row.deep_view()[ORDER_NUMBER_COLUMN as int] == row[ORDER_NUMBER_COLUMN as int]@);
            assert(row.deep_view()[TITLE_COLUMN as int] == row[TITLE_COLUMN as int]@);
            assert(row.deep_view()[CONTENT_COLUMN as int] == row[CONTENT_COLUMN as int]@);
        }
        if product_id.as_str().is_empty() {
            product_id = row[PRODUCT_ID_COLUMN].clone();
            proof {
                if product_id@.len() > 0 {
                    assert(is_first_carrier(table, i as int));
                }
            }
        }
        let order_number = if row[ORDER_NUMBER_COLUMN].as_str().is_empty() {
            None
        } else {
            Some(row[ORDER_NUMBER_COLUMN].clone())
        };
        let review = ProductReview {
            id: row[REVIEW_ID_COLUMN].clone(),
            order_number,
            title: row[TITLE_COLUMN].clone(),
            content: row[CONTENT_COLUMN].clone(),
        };
        assert(review@ == review_of_row(table[i as int]));
        let ghost before = reviews.deep_view();
        reviews.push(review);
        assert(reviews.deep_view() =~= before.push(review_of_row(table[i as int])));
        i = i + 1;
        assert(reviews.deep_view() =~= Seq::new(i as nat, |j: int| review_of_row(table[j])));
    }
    proof {
        if product_id@.len() > 0 {
            let k = choose|k: int|
                k < i && is_first_carrier(table, k) && table[k][PRODUCT_ID_COLUMN as int]
                    == product_id@;
            lemma_captured_from_first_carrier(table, k);
        } else {
            lemma_captured_without_carrier(table);
            assert(product_id@ =~= Seq::<char>::empty());
        }
    }
    Ok(Export { product_id, reviews })
}

} // verus!
