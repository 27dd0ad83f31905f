//! Grocery stores.

use vstd::prelude::*;
use crate::form::{is_form_error, Form, Input, InputData, InputType, PageError};
use crate::table::Row;

verus! {

/// A store to be created.
#[derive(Clone, Debug, PartialEq, Eq)]
pub struct NewStore {
    pub name: String,
}

/// A stored store.
#[derive(Clone, Debug, PartialEq, Eq)]
pub struct Store {
    pub id: i32,
    pub name: String,
}

impl NewStore {
    /// The creation form: the name of the store.
    pub fn form() -> (r: Form)
        ensures
            r.inputs@.len() == 1,
            r.inputs@[0].name@ == "Name"@ && r.inputs@[0].typ == InputType::Text,
            r.inputs@[0].value@ == Seq::<char>::empty(),
    {
        Form { inputs: vec![Input { name: "Name".to_string(), value: String::new(), typ: InputType::Text }] }
    }

    /// The record that the coerced fields of `form()` make; a store needs a
    /// name that is not empty.
    pub fn from_input_data(inputs: Vec<InputData>) -> (r: Result<NewStore, PageError>)
        ensures
            r is Ok <==> (inputs@.len() >= 1 && (inputs@[0] matches InputData::Text(n) && n@.len() > 0)),
            r matches Ok(s) ==> inputs@[0] matches InputData::Text(n) && s.name@ == n@,
            (inputs@.len() >= 1 && (inputs@[0] matches InputData::Text(n) && n@.len() == 0)) ==> is_form_error(r, "name"@),
            (inputs@.len() == 0 || !(inputs@[0] is Text)) ==> r == Err::<NewStore, PageError>(PageError::Developer),
    {
        if inputs.len() < 1 {
            return Err(PageError::Developer);
        }
        let name = inputs[0].try_text()?;
        if name.as_str().is_empty() {
            return Err(PageError::form("name"));
        }
        Ok(NewStore { name })
    }
}

/// The (identifier, name) pairs that a form offers to choose a store by.
pub fn store_options(stores: &Vec<Store>) -> (r: Vec<(i32, String)>)
    ensures
        r@.len() == stores@.len(),
        forall|i: int| 0 <= i < r@.len() ==> #[trigger] r@[i].0 == stores@[i].id && r@[i].1@ == stores@[i].name@,
{
    let mut r: Vec<(i32, String)> = Vec::new();
    let mut i: usize = 0;
    while i < stores.len()
        invariant
            i <= stores@.len(),
            r@.len() == i,
            forall|j: int| 0 <= j < i ==> #[trigger] r@[j].0 == stores@[j].id && r@[j].1@ == stores@[j].name@,
        decreases stores@.len() - i,
    {
        r.push((stores[i].id, stores[i].name.clone()));
        i = i + 1;
    }
    r
}

impl Store {
    /// The texts that put this record back into the creation form.
    pub fn input_values(&self) -> (r: Vec<String>)
        ensures
            r.deep_view() == seq![self.name@],
    {
        let r = vec![self.name.clone()];
        proof {
            assert(r.deep_view() =~= seq![self.name@]);
        }
        r
    }
}

impl Row for Store {
    open spec fn labels() -> Seq<Seq<char>> {
        seq!["Name"@]
    }

    open spec fn texts(&self) -> Seq<Seq<char>> {
        seq![self.name@]
    }

    fn header_row() -> (r: Vec<String>) {
        let r = vec!["Name".to_string()];
        proof {
            assert(r.deep_view() =~= seq!["Name"@]);
        }
        r
    }

    fn cells(&self) -> (r: Vec<String>) {
        let r = vec![self.name.clone()];
        proof {
            assert(r.deep_view() =~= seq![self.name@]);
        }
        r
    }
}

} // verus!
