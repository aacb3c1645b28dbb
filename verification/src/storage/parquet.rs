//! The layout of the records in the columns of the artifact.

use crate::models::vendor::Vendor;
use vstd::prelude::*;

verus! {

/// The type of the values of a column.
#[derive(Debug, Clone, Copy, PartialEq, Eq, Structural)]
pub enum ColumnKind {
    /// Text.
    Utf8,
    /// Integers of 32 bits.
    Int32,
    /// Integers of 64 bits.
    Int64,
}

/// The declaration of one column.
#[derive(Debug)]
pub struct ColumnSpec {
    pub name: String,
    pub kind: ColumnKind,
    /// Whether a row may hold no value in the column.
    pub nullable: bool,
}

/// The declared columns: name, type and whether values may be absent, in
/// the order in which the columns stand in the artifact.
pub open spec fn schema_columns() -> Seq<(Seq<char>, ColumnKind, bool)> {
    seq![
        ("code"@, ColumnKind::Utf8, false),
        ("name"@, ColumnKind::Utf8, false),
        ("details"@, ColumnKind::Utf8, true),
        ("batch_number"@, ColumnKind::Int32, false),
        ("reviews"@, ColumnKind::Utf8, true),
        ("ratings"@, ColumnKind::Utf8, true),
        ("extraction_started_at"@, ColumnKind::Int64, false),
        ("extraction_completed_at"@, ColumnKind::Int64, false),
    ]
}

/// The values that one record contributes, one to each column.
pub struct Row {
    pub code: Seq<char>,
    pub name: Seq<char>,
    pub details: Option<Seq<char>>,
    pub batch_number: i32,
    pub reviews: Option<Seq<char>>,
    pub ratings: Option<Seq<char>>,
    pub extraction_started_at: i64,
    pub extraction_completed_at: i64,
}

impl Vendor {
    /// The values that the record contributes to the columns: its texts and
    /// numbers as they are, its payloads as JSON text.
    pub open spec fn row(self) -> Row {
        Row {
            code: self.code@,
            name: self.name@,
            details: self.details_text(),
            batch_number: self.batch_number,
            reviews: self.reviews_text(),
            ratings: self.ratings_text(),
            extraction_started_at: self.extraction_started_at,
            extraction_completed_at: self.extraction_completed_at,
        }
    }
}

/// The values that a sequence of records contributes, record by record.
pub open spec fn rows_of(vendors: Seq<Vendor>) -> Seq<Row> {
    Seq::new(vendors.len(), |i: int| vendors[i].row())
}

/// The text of a value that may be absent.
pub open spec fn text_of(value: Option<String>) -> Option<Seq<char>> {
    match value {
        Some(text) => Some(text@),
        None => None,
    }
}

/// The records of a run laid out by column.
#[derive(Debug)]
pub struct VendorColumns {
    codes: Vec<String>,
    names: Vec<String>,
    details: Vec<Option<String>>,
    batch_numbers: Vec<i32>,
    reviews: Vec<Option<String>>,
    ratings: Vec<Option<String>>,
    extraction_started_at: Vec<i64>,
    extraction_completed_at: Vec<i64>,
}

impl VendorColumns {
    /// Every column has one value for each record.
    #[verifier::type_invariant]
    spec fn aligned(self) -> bool {
        &&& self.names@.len() == self.codes@.len()
        &&& self.details@.len() == self.codes@.len()
        &&& self.batch_numbers@.len() == self.codes@.len()
        &&& self.reviews@.len() == self.codes@.len()
        &&& self.ratings@.len() == self.codes@.len()
        &&& self.extraction_started_at@.len() == self.codes@.len()
        &&& self.extraction_completed_at@.len() == self.codes@.len()
    }

    /// The number of records.
    pub closed spec fn rows(self) -> nat {
        self.codes@.len()
    }

    /// The values of record `i` across the columns.
    pub closed spec fn row(self, i: int) -> Row {
        Row {
            code: self.codes@[i]@,
            name: self.names@[i]@,
            details: text_of(self.details@[i]),
            batch_number: self.batch_numbers@[i],
            reviews: text_of(self.reviews@[i]),
            ratings: text_of(self.ratings@[i]),
            extraction_started_at: self.extraction_started_at@[i],
            extraction_completed_at: self.extraction_completed_at@[i],
        }
    }

    /// The values of all records, record by record.
    pub open spec fn all_rows(self) -> Seq<Row> {
        Seq::new(self.rows(), |i: int| self.row(i))
    }

    /// The number of records.
    pub fn len(&self) -> (rows: usize)
        ensures
            rows == self.rows(),
    {
        self.codes.len()
    }

    /// The column of primary keys.
    pub fn codes(&self) -> (column: &Vec<String>)
        ensures
            column@.len() == self.rows(),
            forall|i: int| 0 <= i < self.rows() ==> (#[trigger] column@[i])@ == self.row(i).code,
    {
        proof {
            use_type_invariant(self);
        }
        &self.codes
    }

    /// The column of display names.
    pub fn names(&self) -> (column: &Vec<String>)
        ensures
            column@.len() == self.rows(),
            forall|i: int| 0 <= i < self.rows() ==> (#[trigger] column@[i])@ == self.row(i).name,
    {
        proof {
            use_type_invariant(self);
        }
        &self.names
    }

    /// The column of detail payloads.
    pub fn details(&self) -> (column: &Vec<Option<String>>)
        ensures
            column@.len() == self.rows(),
            forall|i: int|
                0 <= i < self.rows() ==> text_of(#[trigger] column@[i]) == self.row(i).details,
    {
        proof {
            use_type_invariant(self);
        }
        &self.details
    }

    /// The column of page numbers.
    pub fn batch_numbers(&self) -> (column: &Vec<i32>)
        ensures
            column@.len() == self.rows(),
            forall|i: int|
                0 <= i < self.rows() ==> #[trigger] column@[i] == self.row(i).batch_number,
    {
        proof {
            use_type_invariant(self);
        }
        &self.batch_numbers
    }

    /// The column of reviews.
    pub fn reviews(&self) -> (column: &Vec<Option<String>>)
        ensures
            column@.len() == self.rows(),
            forall|i: int|
                0 <= i < self.rows() ==> text_of(#[trigger] column@[i]) == self.row(i).reviews,
    {
        proof {
            use_type_invariant(self);
        }
        &self.reviews
    }

    /// The column of ratings distributions.
    pub fn ratings(&self) -> (column: &Vec<Option<String>>)
        ensures
            column@.len() == self.rows(),
            forall|i: int|
                0 <= i < self.rows() ==> text_of(#[trigger] column@[i]) == self.row(i).ratings,
    {
        proof {
            use_type_invariant(self);
        }
        &self.ratings
    }

    /// The column of the moments at which the extractions began.
    pub fn extraction_started_at(&self) -> (column: &Vec<i64>)
        ensures
            column@.len() == self.rows(),
            forall|i: int|
                0 <= i < self.rows() ==> #[trigger] column@[i] == self.row(
                    i,
                ).extraction_started_at,
    {
        proof {
            use_type_invariant(self);
        }
        &self.extraction_started_at
    }

    /// The column of the moments at which the extractions were complete.
    pub fn extraction_completed_at(&self) -> (column: &Vec<i64>)
        ensures
            column@.len() == self.rows(),
            forall|i: int|
                0 <= i < self.rows() ==> #[trigger] column@[i] == self.row(
                    i,
                ).extraction_completed_at,
    {
        proof {
            use_type_invariant(self);
        }
        &self.extraction_completed_at
    }
}

/// The value that one record has in one column.
pub enum Cell {
    Text(Option<Seq<char>>),
    Int32(i32),
    Int64(i64),
}

/// The value that a record has in column number `column`, counted from zero
/// in the order of the schema. The two columns of texts that every record
/// has are never without a value.
pub open spec fn cell(row: Row, column: int) -> Cell {
    if column == 0 {
        Cell::Text(Some(row.code))
    } else if column == 1 {
        Cell::Text(Some(row.name))
    } else if column == 2 {
        Cell::Text(row.details)
    } else if column == 3 {
        Cell::Int32(row.batch_number)
    } else if column == 4 {
        Cell::Text(row.reviews)
    } else if column == 5 {
        Cell::Text(row.ratings)
    } else if column == 6 {
        Cell::Int64(row.extraction_started_at)
    } else {
        Cell::Int64(row.extraction_completed_at)
    }
}

/// The values of one column, one for each record.
#[derive(Debug)]
pub enum ColumnValues {
    Utf8(Vec<Option<String>>),
    Int32(Vec<i32>),
    Int64(Vec<i64>),
}

impl ColumnValues {
    /// The type of the values.
    pub open spec fn kind(self) -> ColumnKind {
        match self {
            ColumnValues::Utf8(_) => ColumnKind::Utf8,
            ColumnValues::Int32(_) => ColumnKind::Int32,
            ColumnValues::Int64(_) => ColumnKind::Int64,
        }
    }

    /// The number of values.
    pub open spec fn rows(self) -> nat {
        match self {
            ColumnValues::Utf8(values) => values@.len(),
            ColumnValues::Int32(values) => values@.len(),
            ColumnValues::Int64(values) => values@.len(),
        }
    }

    /// The value of record `i`.
    pub open spec fn cell(self, i: int) -> Cell {
        match self {
            ColumnValues::Utf8(values) => Cell::Text(text_of(values@[i])),
            ColumnValues::Int32(values) => Cell::Int32(values@[i]),
            ColumnValues::Int64(values) => Cell::Int64(values@[i]),
        }
    }
}

fn present(texts: Vec<String>) -> (values: Vec<Option<String>>)
    ensures
        values@.len() == texts@.len(),
        forall|i: int| 0 <= i < texts@.len() ==> text_of(#[trigger] values@[i]) == Some(texts@[i]@),
{
    let mut values: Vec<Option<String>> = Vec::new();
    let mut i: usize = 0;
    while i < texts.len()
        invariant
            i <= texts@.len(),
            values@.len() == i,
            forall|j: int| 0 <= j < i ==> text_of(#[trigger] values@[j]) == Some(texts@[j]@),
        decreases texts@.len() - i,
    {
        values.push(Some(texts[i].clone()));
        i += 1;
    }
    values
}

impl VendorColumns {
    /// Hands the columns out in the order of the schema: column `k` has the
    /// type that the schema declares for it and holds, for each record, the
    /// value of that record.
    pub fn into_columns(self) -> (columns: Vec<ColumnValues>)
        ensures
            columns@.len() == schema_columns().len(),
            forall|k: int|
                0 <= k < columns@.len() ==> {
                    &&& (#[trigger] columns@[k]).kind() == schema_columns()[k].1
                    &&& columns@[k].rows() == self.rows()
                },
            forall|k: int, i: int|
                0 <= k < columns@.len() && 0 <= i < self.rows() ==> #[trigger] columns@[k].cell(i)
                    == cell(self.row(i), k),
    {
        proof {
            use_type_invariant(&self);
        }
        let mut columns: Vec<ColumnValues> = Vec::new();
        columns.push(ColumnValues::Utf8(present(self.codes)));
        columns.push(ColumnValues::Utf8(present(self.names)));
        columns.push(ColumnValues::Utf8(self.details));
        columns.push(ColumnValues::Int32(self.batch_numbers));
        columns.push(ColumnValues::Utf8(self.reviews));
        columns.push(ColumnValues::Utf8(self.ratings));
        columns.push(ColumnValues::Int64(self.extraction_started_at));
        columns.push(ColumnValues::Int64(self.extraction_completed_at));
        columns
    }
}

/// The conversion of the finished records into the columns of the artifact.
pub struct ParquetConverter;

fn column(name: &str, kind: ColumnKind, nullable: bool) -> (spec: ColumnSpec)
    ensures
        spec.name@ == name@,
        spec.kind == kind,
        spec.nullable == nullable,
{
    ColumnSpec { name: String::from_str(name), kind, nullable }
}

impl ParquetConverter {
    /// The declared columns, in their fixed order.
    pub fn schema() -> (columns: Vec<ColumnSpec>)
        ensures
            columns@.len() == schema_columns().len(),
            forall|i: int|
                0 <= i < columns@.len() ==> (
                    (#[trigger] columns@[i]).name@,
                    columns@[i].kind,
                    columns@[i].nullable,
                ) == schema_columns()[i],
    {
        let mut columns: Vec<ColumnSpec> = Vec::new();
        columns.push(column("code", ColumnKind::Utf8, false));
        columns.push(column("name", ColumnKind::Utf8, false));
        columns.push(column("details", ColumnKind::Utf8, true));
        columns.push(column("batch_number", ColumnKind::Int32, false));
        columns.push(column("reviews", ColumnKind::Utf8, true));
        columns.push(column("ratings", ColumnKind::Utf8, true));
        columns.push(column("extraction_started_at", ColumnKind::Int64, false));
        columns.push(column("extraction_completed_at", ColumnKind::Int64, false));
        columns
    }

    /// Lays the records out by column: row `i` of every column holds the
    /// value of record `i`, so the columns are as long as the sequence of
    /// records and depend on nothing but that sequence.
    pub fn convert_vendors_to_parquet(vendors: &[Vendor]) -> (columns: VendorColumns)
        ensures
            columns.rows() == vendors@.len(),
            columns.all_rows() == rows_of(vendors@),
    {
        let mut codes: Vec<String> = Vec::new();
        let mut names: Vec<String> = Vec::new();
        let mut details: Vec<Option<String>> = Vec::new();
        let mut batch_numbers: Vec<i32> = Vec::new();
        let mut reviews: Vec<Option<String>> = Vec::new();
        let mut ratings: Vec<Option<String>> = Vec::new();
        let mut extraction_started_at: Vec<i64> = Vec::new();
        let mut extraction_completed_at: Vec<i64> = Vec::new();
        let mut i: usize = 0;
        while i < vendors.len()
            invariant
                i <= vendors@.len(),
                codes@.len() == i,
                names@.len() == i,
                details@.len() == i,
                batch_numbers@.len() == i,
                reviews@.len() == i,
                ratings@.len() == i,
                extraction_started_at@.len() == i,
                extraction_completed_at@.len() == i,
                forall|j: int|
                    0 <= j < i ==> {
                        let v = #[trigger] vendors@[j];
                        &&& codes@[j]@ == v.code@
                        &&& names@[j]@ == v.name@
                        &&& text_of(details@[j]) == v.details_text()
                        &&& batch_numbers@[j] == v.batch_number
                        &&& text_of(reviews@[j]) == v.reviews_text()
                        &&& text_of(ratings@[j]) == v.ratings_text()
                        &&& extraction_started_at@[j] == v.extraction_started_at
                        &&& extraction_completed_at@[j] == v.extraction_completed_at
                    },
            decreases vendors@.len() - i,
        {
            let vendor = &vendors[i];
            codes.push(vendor.code.clone());
            names.push(vendor.name.clone());
            details.push(vendor.details_json());
            batch_numbers.push(vendor.batch_number);
            reviews.push(vendor.reviews_json());
            ratings.push(vendor.ratings_json());
            extraction_started_at.push(vendor.extraction_started_at);
            extraction_completed_at.push(vendor.extraction_completed_at);
            i += 1;
        }
        let columns = VendorColumns {
            codes,
            names,
            details,
            batch_numbers,
            reviews,
            ratings,
            extraction_started_at,
            extraction_completed_at,
        };
        columns
    }
}

/// Encoding is a function of the sequence of records: whenever the same
/// sequence is laid out twice, the two layouts agree in every value of every
/// column.
pub proof fn lemma_same_records_same_columns(
    vendors: Seq<Vendor>,
    once: VendorColumns,
    twice: VendorColumns,
)
    requires
        once.all_rows() == rows_of(vendors),
        twice.all_rows() == rows_of(vendors),
    ensures
        once.rows() == twice.rows(),
        once.rows() == vendors.len(),
        forall|i: int| 0 <= i < once.rows() ==> once.row(i) == twice.row(i),
{
    assert(once.all_rows().len() == once.rows());
    assert(twice.all_rows().len() == twice.rows());
    assert forall|i: int| 0 <= i < once.rows() implies once.row(i) == twice.row(i) by {
        assert(once.all_rows()[i] == once.row(i));
        assert(twice.all_rows()[i] == twice.row(i));
    }
}

} // verus!
