//! Trips to a grocery store.

use vstd::prelude::*;
use crate::calendar::{date_display, date_input, opt_time_display, opt_time_input, time_cell, time_input_value, Date, Time};
use crate::form::{Form, Input, InputData, InputType, PageError};
use crate::table::Row;

verus! {

/// A trip to be recorded; `store_id` names an existing store.
#[derive(Clone, Copy, Debug, PartialEq, Eq)]
pub struct NewGroceryTrip {
    pub date: Date,
    pub time: Option<Time>,
    pub store_id: i32,
}

/// A recorded trip as its table holds it.
#[derive(Clone, Copy, Debug, PartialEq, Eq)]
pub struct GroceryTripRow {
    pub id: i32,
    pub date: Date,
    pub time: Option<Time>,
    pub store_id: i32,
}

/// A recorded trip as listed: the store shows by its name.
#[derive(Clone, Debug, PartialEq, Eq)]
pub struct GroceryTrip {
    pub id: i32,
    pub date: Date,
    pub time: Option<Time>,
    pub store_name: String,
}

impl NewGroceryTrip {
    /// The creation form, dated `today`: date, optional time, and the store among `stores`,
    /// the (identifier, label) pairs of the stores there are.
    pub fn form(today: &Date, stores: Vec<(i32, String)>) -> (r: Form)
        ensures
            r.inputs@.len() == 3,
            r.inputs@[0].name@ == "Date"@ && r.inputs@[0].typ == InputType::Date,
            r.inputs@[0].value@ == date_input(today@),
            r.inputs@[1].name@ == "Time"@ && r.inputs@[1].typ == InputType::TimeOption,
            r.inputs@[2].name@ == "Store"@ && r.inputs@[2].typ == InputType::DropDown(stores),
            r.inputs@[1].value@ == Seq::<char>::empty() && r.inputs@[2].value@ == Seq::<char>::empty(),
    {
        Form {
            inputs: vec![
                Input::new("Date", InputType::Date, today),
                Input::new("Time", InputType::TimeOption, today),
                Input::new("Store", InputType::DropDown(stores), today),
            ],
        }
    }

    /// The record that the coerced fields of `form` make.
    pub fn from_input_data(inputs: Vec<InputData>) -> (r: Result<NewGroceryTrip, PageError>)
        ensures
            r is Ok <==> inputs@.len() >= 3 && inputs@[0] is Date && inputs@[1] is TimeOption && inputs@[2] is Int,
            r matches Ok(t) ==> inputs@[0] == InputData::Date(t.date) && inputs@[1] == InputData::TimeOption(t.time)
                && inputs@[2] == InputData::Int(t.store_id),
            r is Err ==> r == Err::<NewGroceryTrip, PageError>(PageError::Developer),
    {
        if inputs.len() < 3 {
            return Err(PageError::Developer);
        }
        let date = inputs[0].try_date()?;
        let time = inputs[1].try_time_option()?;
        let store_id = inputs[2].try_int()?;
        Ok(NewGroceryTrip { date, time, store_id })
    }
}

impl GroceryTrip {
    /// The store is left unselected: the listing holds its name, not its identifier.
    pub open spec fn input_texts(&self) -> Seq<Seq<char>> {
        seq![date_input(self.date@), opt_time_input(self.time), Seq::empty()]
    }

    /// The texts that put this record back into the creation form.
    pub fn input_values(&self) -> (r: Vec<String>)
        ensures
            r.deep_view() == self.input_texts(),
    {
        let r = vec![self.date.input_text(), time_input_value(self.time), String::new()];
        proof {
            assert(r.deep_view() =~= self.input_texts());
        }
        r
    }
}

impl Row for GroceryTrip {
    open spec fn labels() -> Seq<Seq<char>> {
        seq!["Date"@, "Time"@, "Store"@]
    }

    open spec fn texts(&self) -> Seq<Seq<char>> {
        seq![date_display(self.date@), opt_time_display(self.time), self.store_name@]
    }

    fn header_row() -> (r: Vec<String>) {
        let r = vec!["Date".to_string(), "Time".to_string(), "Store".to_string()];
        proof {
            assert(r.deep_view() =~= Self::labels());
        }
        r
    }

    fn cells(&self) -> (r: Vec<String>) {
        let r = vec![self.date.display_text(), time_cell(self.time), self.store_name.clone()];
        proof {
            assert(r.deep_view() =~= self.texts());
        }
        r
    }
}

} // verus!
