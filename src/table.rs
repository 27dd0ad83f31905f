//! The render contract: header labels and, for each record, one display text
//! per header, in the same order.

use convert_case::{Case, Casing};
use vstd::prelude::*;

verus! {

/// A record that shows as one row of a table.
pub trait Row: Sized {
    /// The labels of the columns.
    spec fn labels() -> Seq<Seq<char>>;

    /// The display text of each column of this record.
    spec fn texts(&self) -> Seq<Seq<char>>;

    fn header_row() -> (r: Vec<String>)
        ensures
            r.deep_view() == Self::labels(),
    ;

    fn cells(&self) -> (r: Vec<String>)
        ensures
            r.deep_view() == self.texts(),
            self.texts().len() == Self::labels().len(),
    ;
}

/// A list of records shown as a table.
pub trait Tabular {
    spec fn header_texts(&self) -> Seq<Seq<char>>;

    spec fn row_texts(&self) -> Seq<Seq<Seq<char>>>;

    fn headers(&self) -> (r: Vec<String>)
        ensures
            r.deep_view() == self.header_texts(),
    ;

    /// One row of texts per record, each with one text per header.
    fn matrix(&self) -> (r: Vec<Vec<String>>)
        ensures
            r.deep_view() == self.row_texts(),
            forall|i: int| 0 <= i < r@.len() ==> #[trigger] r@[i]@.len() == self.header_texts().len(),
    ;
}

impl<R: Row> Tabular for Vec<R> {
    open spec fn header_texts(&self) -> Seq<Seq<char>> {
        R::labels()
    }

    open spec fn row_texts(&self) -> Seq<Seq<Seq<char>>> {
        Seq::new(self@.len(), |i: int| self@[i].texts())
    }

    fn headers(&self) -> (r: Vec<String>) {
        R::header_row()
    }

    fn matrix(&self) -> (r: Vec<Vec<String>>) {
        let mut rows: Vec<Vec<String>> = Vec::new();
        let mut i: usize = 0;
        while i < self.len()
            invariant
                i <= self@.len(),
                rows@.len() == i,
                rows.deep_view() =~= Seq::new(i as nat, |j: int| self@[j].texts()),
                forall|j: int| 0 <= j < rows@.len() ==> #[trigger] rows@[j]@.len() == R::labels().len(),
            decreases self@.len() - i,
        {
            let cells = self[i].cells();
            let ghost before = rows@;
            let ghost before_deep = rows.deep_view();
            rows.push(cells);
            proof {
                assert(rows@ == before.push(cells));
                assert forall|j: int| 0 <= j <= i implies #[trigger] rows.deep_view()[j] == self@[j].texts() by {
                    if j < i {
                        assert(rows@[j] == before[j]);
                        assert(before_deep[j] == before[j].deep_view());
                    }
                }
            }
            i = i + 1;
        }
        rows
    }
}

/// The kinds of record that the store keeps.
#[derive(Clone, Copy, Debug, PartialEq, Eq, Structural)]
pub enum TableType {
    Bowel,
    GroceryTrip,
    GroceryItem,
    Metric,
    Weight,
    Store,
}

/// What convert_case makes of `s` in snake case.
pub uninterp spec fn snake_of(s: Seq<char>) -> Seq<char>;

/// Whether every character of `s` is ASCII.
pub open spec fn ascii_text(s: Seq<char>) -> bool {
    forall|i: int| 0 <= i < s.len() ==> (#[trigger] s[i] as u32) < 128
}

/// Relies on convert_case's `to_case(Case::Snake)`: the result depends on `s`
/// alone. Its word splitting cuts the text at character positions taken as
/// byte positions, so only ASCII text is safe to hand it.
#[verifier::external_body]
fn to_snake(s: &str) -> (r: String)
    requires
        ascii_text(s@),
    ensures
        r@ == snake_of(s@),
{
    s.to_case(Case::Snake)
}

impl TableType {
    pub open spec fn name_spec(self) -> Seq<char> {
        match self {
            TableType::Bowel => "Bowel"@,
            TableType::GroceryTrip => "GroceryTrip"@,
            TableType::GroceryItem => "GroceryItem"@,
            TableType::Metric => "Metric"@,
            TableType::Weight => "Weight"@,
            TableType::Store => "Store"@,
        }
    }

    /// The name of the kind, as the type is written.
    pub fn name(&self) -> (r: &'static str)
        ensures
            r@ == self.name_spec(),
    {
        match self {
            TableType::Bowel => "Bowel",
            TableType::GroceryTrip => "GroceryTrip",
            TableType::GroceryItem => "GroceryItem",
            TableType::Metric => "Metric",
            TableType::Weight => "Weight",
            TableType::Store => "Store",
        }
    }

    /// The name in snake case, which is also the path of its resource.
    pub fn snake_case(&self) -> (r: String)
        ensures
            r@ == snake_of(self.name_spec()),
    {
        let name = self.name();
        proof {
            reveal_strlit("Bowel");
            reveal_strlit("GroceryTrip");
            reveal_strlit("GroceryItem");
            reveal_strlit("Metric");
            reveal_strlit("Weight");
            reveal_strlit("Store");
        }
        to_snake(name)
    }
}

} // verus!
