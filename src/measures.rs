//! The records that hold measurements: weights, body metrics and grocery
//! items. The library holds each measurement as the bit pattern of a 32-bit
//! float; reading, showing and storing the floats is left to the caller.

use vstd::prelude::*;
use crate::calendar::{date_input, Date};
use crate::form::{opt_text_view, Form, Input, InputData, InputType, PageError};
use crate::calendar::Time;

verus! {

/// The weight form, dated `today`: date, optional time, and the weight.
pub fn weight_form(today: &Date) -> (r: Form)
    ensures
        r.inputs@.len() == 3,
        r.inputs@[0].name@ == "Date"@ && r.inputs@[0].typ == InputType::Date,
        r.inputs@[0].value@ == date_input(today@),
        r.inputs@[1].name@ == "Time"@ && r.inputs@[1].typ == InputType::TimeOption,
        r.inputs@[2].name@ == "Weight"@ && r.inputs@[2].typ == InputType::Float,
        r.inputs@[1].value@ == Seq::<char>::empty() && r.inputs@[2].value@ == Seq::<char>::empty(),
{
    Form {
        inputs: vec![
            Input::new("Date", InputType::Date, today),
            Input::new("Time", InputType::TimeOption, today),
            Input::new("Weight", InputType::Float, today),
        ],
    }
}

/// The body metric form, dated `today`: date, optional time, and five optional measurements.
pub fn metric_form(today: &Date) -> (r: Form)
    ensures
        r.inputs@.len() == 7,
        r.inputs@[0].name@ == "Date"@ && r.inputs@[0].typ == InputType::Date,
        r.inputs@[0].value@ == date_input(today@),
        r.inputs@[1].name@ == "Time"@ && r.inputs@[1].typ == InputType::TimeOption,
        r.inputs@[2].name@ == "Body Fat"@,
        r.inputs@[3].name@ == "Gut"@,
        r.inputs@[4].name@ == "Waist"@,
        r.inputs@[5].name@ == "Chest"@,
        r.inputs@[6].name@ == "Thigh"@,
        forall|j: int| 2 <= j < 7 ==> (#[trigger] r.inputs@[j]).typ == InputType::FloatOption,
        forall|j: int| 1 <= j < 7 ==> (#[trigger] r.inputs@[j]).value@ == Seq::<char>::empty(),
{
    Form {
        inputs: vec![
            Input::new("Date", InputType::Date, today),
            Input::new("Time", InputType::TimeOption, today),
            Input::new("Body Fat", InputType::FloatOption, today),
            Input::new("Gut", InputType::FloatOption, today),
            Input::new("Waist", InputType::FloatOption, today),
            Input::new("Chest", InputType::FloatOption, today),
            Input::new("Thigh", InputType::FloatOption, today),
        ],
    }
}

/// The grocery item form: the trip among `trips`, the (identifier, label)
/// pairs of the trips there are, then name, optional amount and optional
/// measure.
pub fn grocery_item_form(trips: Vec<(i32, String)>) -> (r: Form)
    ensures
        r.inputs@.len() == 4,
        r.inputs@[0].name@ == "Trip"@ && r.inputs@[0].typ == InputType::DropDown(trips),
        r.inputs@[1].name@ == "Name"@ && r.inputs@[1].typ == InputType::Text,
        r.inputs@[2].name@ == "Amount"@ && r.inputs@[2].typ == InputType::FloatOption,
        r.inputs@[3].name@ == "Measure"@ && r.inputs@[3].typ == InputType::TextOption,
        forall|j: int| 0 <= j < 4 ==> (#[trigger] r.inputs@[j]).value@ == Seq::<char>::empty(),
{
    Form {
        inputs: vec![
            Input { name: "Trip".to_string(), value: String::new(), typ: InputType::DropDown(trips) },
            Input { name: "Name".to_string(), value: String::new(), typ: InputType::Text },
            Input { name: "Amount".to_string(), value: String::new(), typ: InputType::FloatOption },
            Input { name: "Measure".to_string(), value: String::new(), typ: InputType::TextOption },
        ],
    }
}

/// A weight to be recorded; the weight is the bit pattern of a 32-bit float.
#[derive(Clone, Copy, Debug, PartialEq, Eq)]
pub struct NewWeight {
    pub date: Date,
    pub time: Option<Time>,
    pub value: u32,
}

/// Body measurements to be recorded; each is the bit pattern of a 32-bit
/// float, or absent.
#[derive(Clone, Copy, Debug, PartialEq, Eq)]
pub struct NewMetric {
    pub date: Date,
    pub time: Option<Time>,
    pub body_fat: Option<u32>,
    pub gut_circum: Option<u32>,
    pub waist_circum: Option<u32>,
    pub chest_circum: Option<u32>,
    pub thigh_circum: Option<u32>,
}

/// A grocery item to be recorded; `trip_id` names an existing trip and the
/// amount is the bit pattern of a 32-bit float, or absent.
#[derive(Clone, Debug, PartialEq, Eq)]
pub struct NewGroceryItem {
    pub trip_id: i32,
    pub name: String,
    pub amount: Option<u32>,
    pub measure: Option<String>,
}

impl NewWeight {
    /// The record that the coerced fields of `weight_form` make.
    pub fn from_input_data(inputs: Vec<InputData>) -> (r: Result<NewWeight, PageError>)
        ensures
            r is Ok <==> inputs@.len() >= 3 && inputs@[0] is Date && inputs@[1] is TimeOption && inputs@[2] is Float,
            r matches Ok(w) ==> inputs@[0] == InputData::Date(w.date) && inputs@[1] == InputData::TimeOption(w.time)
                && inputs@[2] == InputData::Float(w.value),
            r is Err ==> r == Err::<NewWeight, PageError>(PageError::Developer),
    {
        if inputs.len() < 3 {
            return Err(PageError::Developer);
        }
        let date = inputs[0].try_date()?;
        let time = inputs[1].try_time_option()?;
        let value = inputs[2].try_float()?;
        Ok(NewWeight { date, time, value })
    }
}

impl NewMetric {
    /// The record that the coerced fields of `metric_form` make.
    pub fn from_input_data(inputs: Vec<InputData>) -> (r: Result<NewMetric, PageError>)
        ensures
            r is Ok <==> inputs@.len() >= 7 && inputs@[0] is Date && inputs@[1] is TimeOption
                && forall|j: int| 2 <= j < 7 ==> #[trigger] inputs@[j] is FloatOption,
            r matches Ok(m) ==> {
                &&& inputs@[0] == InputData::Date(m.date)
                &&& inputs@[1] == InputData::TimeOption(m.time)
                &&& inputs@[2] == InputData::FloatOption(m.body_fat)
                &&& inputs@[3] == InputData::FloatOption(m.gut_circum)
                &&& inputs@[4] == InputData::FloatOption(m.waist_circum)
                &&& inputs@[5] == InputData::FloatOption(m.chest_circum)
                &&& inputs@[6] == InputData::FloatOption(m.thigh_circum)
            },
            r is Err ==> r == Err::<NewMetric, PageError>(PageError::Developer),
    {
        if inputs.len() < 7 {
            return Err(PageError::Developer);
        }
        let date = inputs[0].try_date()?;
        let time = inputs[1].try_time_option()?;
        let body_fat = inputs[2].try_float_option()?;
        let gut_circum = inputs[3].try_float_option()?;
        let waist_circum = inputs[4].try_float_option()?;
        let chest_circum = inputs[5].try_float_option()?;
        let thigh_circum = inputs[6].try_float_option()?;
        Ok(NewMetric { date, time, body_fat, gut_circum, waist_circum, chest_circum, thigh_circum })
    }
}

impl NewGroceryItem {
    /// The record that the coerced fields of `grocery_item_form` make.
    pub fn from_input_data(inputs: Vec<InputData>) -> (r: Result<NewGroceryItem, PageError>)
        ensures
            r is Ok <==> inputs@.len() >= 4 && inputs@[0] is Int && inputs@[1] is Text
                && inputs@[2] is FloatOption && inputs@[3] is TextOption,
            r matches Ok(g) ==> {
                &&& inputs@[0] == InputData::Int(g.trip_id)
                &&& inputs@[1] matches InputData::Text(n) && n@ == g.name@
                &&& inputs@[2] == InputData::FloatOption(g.amount)
                &&& inputs@[3] matches InputData::TextOption(m) && opt_text_view(m) == opt_text_view(g.measure)
            },
            r is Err ==> r == Err::<NewGroceryItem, PageError>(PageError::Developer),
    {
        if inputs.len() < 4 {
            return Err(PageError::Developer);
        }
        let trip_id = inputs[0].try_int()?;
        let name = inputs[1].try_text()?;
        let amount = inputs[2].try_float_option()?;
        let measure = inputs[3].try_text_option()?;
        Ok(NewGroceryItem { trip_id, name, amount, measure })
    }
}

} // verus!
