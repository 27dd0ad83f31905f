//! Bowel movements, rated on a scale.

use vstd::prelude::*;
use crate::calendar::{date_display, date_input, opt_time_display, opt_time_input, time_cell, time_input_value, Date, Time};
use crate::digits::{i8_text, int_text};
use crate::form::{Form, Input, InputData, InputType, PageError};
use crate::table::Row;

verus! {

/// A bowel movement to be recorded.
#[derive(Clone, Copy, Debug, PartialEq, Eq)]
pub struct NewBowel {
    pub date: Date,
    pub time: Option<Time>,
    pub scale: i8,
}

/// A recorded bowel movement.
#[derive(Clone, Copy, Debug, PartialEq, Eq)]
pub struct Bowel {
    pub id: i32,
    pub date: Date,
    pub time: Option<Time>,
    pub scale: i8,
}

impl NewBowel {
    /// The creation form, dated `today`: date, optional time, and the scale from 1 to 7 starting at 4.
    pub fn form(today: &Date) -> (r: Form)
        ensures
            r.inputs@.len() == 3,
            r.inputs@[0].name@ == "Date"@ && r.inputs@[0].typ == InputType::Date,
            r.inputs@[0].value@ == date_input(today@),
            r.inputs@[1].name@ == "Time"@ && r.inputs@[1].typ == InputType::TimeOption,
            r.inputs@[1].value@ == Seq::<char>::empty(),
            r.inputs@[2].name@ == "Scale"@ && r.inputs@[2].typ == InputType::Range(1, 7),
            r.inputs@[2].value@ == "4"@,
    {
        Form {
            inputs: vec![
                Input::new("Date", InputType::Date, today),
                Input::new("Time", InputType::TimeOption, today),
                Input::with_initial("Scale", InputType::Range(1, 7), "4"),
            ],
        }
    }

    /// The record that the coerced fields of `form` make.
    pub fn from_input_data(inputs: Vec<InputData>) -> (r: Result<NewBowel, PageError>)
        ensures
            r is Ok <==> inputs@.len() >= 3 && inputs@[0] is Date && inputs@[1] is TimeOption && inputs@[2] is Byte,
            r matches Ok(b) ==> inputs@[0] == InputData::Date(b.date) && inputs@[1] == InputData::TimeOption(b.time)
                && inputs@[2] == InputData::Byte(b.scale),
            r is Err ==> r == Err::<NewBowel, PageError>(PageError::Developer),
    {
        if inputs.len() < 3 {
            return Err(PageError::Developer);
        }
        let date = inputs[0].try_date()?;
        let time = inputs[1].try_time_option()?;
        let scale = inputs[2].try_byte()?;
        Ok(NewBowel { date, time, scale })
    }
}

impl Bowel {
    pub open spec fn input_texts(&self) -> Seq<Seq<char>> {
        seq![date_input(self.date@), opt_time_input(self.time), int_text(self.scale as int)]
    }

    /// The texts that put this record back into the creation form.
    pub fn input_values(&self) -> (r: Vec<String>)
        ensures
            r.deep_view() == self.input_texts(),
    {
        let r = vec![self.date.input_text(), time_input_value(self.time), i8_text(self.scale)];
        proof {
            assert(r.deep_view() =~= self.input_texts());
        }
        r
    }
}

impl Row for Bowel {
    open spec fn labels() -> Seq<Seq<char>> {
        seq!["Date"@, "Time"@, "Scale"@]
    }

    open spec fn texts(&self) -> Seq<Seq<char>> {
        seq![date_display(self.date@), opt_time_display(self.time), int_text(self.scale as int)]
    }

    fn header_row() -> (r: Vec<String>) {
        let r = vec!["Date".to_string(), "Time".to_string(), "Scale".to_string()];
        proof {
            assert(r.deep_view() =~= Self::labels());
        }
        r
    }

    fn cells(&self) -> (r: Vec<String>) {
        let r = vec![self.date.display_text(), time_cell(self.time), i8_text(self.scale)];
        proof {
            assert(r.deep_view() =~= self.texts());
        }
        r
    }
}

} // verus!
