//! Typed form fields: each holds the raw text that was typed into it until
//! the form is submitted, when every field is coerced to a value of its kind.

use vstd::prelude::*;
use crate::calendar::{chrono_date_of, chrono_time_of, date_input, parse_date, parse_time, time_input, time_opt_view, valid_date, valid_time, Date, DateView, Time, TimeView};
use crate::digits::{i32_text, int_text, integer_in, read_i32, read_i8};

verus! {

/// What can go wrong on a page.
#[derive(Clone, Debug, PartialEq, Eq)]
pub enum PageError {
    Submit,
    Delete,
    Load,
    /// The field of this name holds a value that is not of its kind.
    Form(String),
    /// An inner inconsistency of the client: a field of the wrong kind.
    Developer,
}

pub open spec fn is_form_error<T>(r: Result<T, PageError>, name: Seq<char>) -> bool {
    r matches Err(PageError::Form(n)) && n@ == name
}

pub open spec fn message_of(e: PageError) -> Seq<char> {
    match e {
        PageError::Submit => "Error submitting to api"@,
        PageError::Delete => "Unable to delete item"@,
        PageError::Load => "Cannot retrieve data"@,
        PageError::Form(n) => "Field "@ + n@ + " is invalid"@,
        PageError::Developer => "The developer made a mistake!"@,
    }
}

impl PageError {
    /// The error of the field named `name`.
    pub fn form(name: &str) -> (r: PageError)
        ensures
            r matches PageError::Form(n) && n@ == name@,
    {
        PageError::Form(name.to_string())
    }

    /// The text shown to the user.
    pub fn message(&self) -> (r: String)
        ensures
            r@ == message_of(*self),
    {
        match self {
            PageError::Submit => "Error submitting to api".to_string(),
            PageError::Delete => "Unable to delete item".to_string(),
            PageError::Load => "Cannot retrieve data".to_string(),
            PageError::Form(n) => {
                let mut r = "Field ".to_string();
                r.append(n.as_str());
                r.append(" is invalid");
                r
            },
            PageError::Developer => "The developer made a mistake!".to_string(),
        }
    }
}

/// The kind of a form field, which decides how its text is coerced.
#[derive(Clone, Debug)]
pub enum InputType {
    /// `YYYY-MM-DD`; an error when it does not read as a date.
    Date,
    /// `HH:MM`; an error when it does not read as a time.
    Time,
    /// `HH:MM`; absent when it does not read as a time, never an error.
    TimeOption,
    /// A small integer between the two bounds of the slider.
    Range(usize, usize),
    Int,
    /// Free text; never an error.
    Text,
    /// Free text; the empty text is absent.
    TextOption,
    /// An integer; absent when the text does not read as one.
    IntOption,
    /// An identifier chosen among these (identifier, label) pairs.
    DropDown(Vec<(i32, String)>),
    /// A 32-bit float, held by its bit pattern.
    Float,
    /// A 32-bit float held by its bit pattern; absent when the text does not read as one.
    FloatOption,
}

/// The value of a form field after coercion.
#[derive(Clone, Debug, PartialEq)]
pub enum InputData {
    Date(Date),
    Time(Time),
    TimeOption(Option<Time>),
    Byte(i8),
    Int(i32),
    IntOption(Option<i32>),
    Text(String),
    TextOption(Option<String>),
    /// The bit pattern of a 32-bit float.
    Float(u32),
    FloatOption(Option<u32>),
}

pub open spec fn opt_text_view(t: Option<String>) -> Option<Seq<char>> {
    match t {
        Some(t) => Some(t@),
        None => None,
    }
}

pub open spec fn opt_i32_of(v: Option<int>) -> Option<i32> {
    match v {
        Some(v) => Some(v as i32),
        None => None,
    }
}

/// Whether `s` is the text of one of the identifiers offered.
pub open spec fn offers(options: Seq<(i32, String)>, s: Seq<char>) -> bool {
    exists|i: int| 0 <= i < options.len() && int_text(#[trigger] options[i].0 as int) == s
}

/// The coercion of the text `s` in a field of kind `kind`. `bits` is the bit
/// pattern of `s` read as a 32-bit float, where it reads as one; only the
/// float kinds look at it.
pub open spec fn coerces_to(kind: InputType, s: Seq<char>, bits: Option<u32>, r: Result<InputData, PageError>) -> bool {
    match kind {
        InputType::Date => match chrono_date_of(s) {
            Some(v) => r matches Ok(InputData::Date(d)) && d@ == v,
            None => is_form_error(r, "date"@),
        },
        InputType::Time => match chrono_time_of(s) {
            Some(v) => r matches Ok(InputData::Time(t)) && t@ == v,
            None => is_form_error(r, "time"@),
        },
        InputType::TimeOption => r matches Ok(InputData::TimeOption(t)) && time_opt_view(t) == chrono_time_of(s),
        InputType::Range(_, _) => match integer_in(s, -128, 127) {
            Some(v) => r == Ok::<InputData, PageError>(InputData::Byte(v as i8)),
            None => is_form_error(r, "range"@),
        },
        InputType::Int => match integer_in(s, i32::MIN as int, i32::MAX as int) {
            Some(v) => r == Ok::<InputData, PageError>(InputData::Int(v as i32)),
            None => is_form_error(r, "integer"@),
        },
        InputType::IntOption => r == Ok::<InputData, PageError>(
            InputData::IntOption(opt_i32_of(integer_in(s, i32::MIN as int, i32::MAX as int))),
        ),
        InputType::Text => r matches Ok(InputData::Text(t)) && t@ == s,
        InputType::TextOption => r matches Ok(InputData::TextOption(t))
            && opt_text_view(t) == (if s.len() == 0 { None } else { Some(s) }),
        InputType::DropDown(options) => if offers(options@, s) {
            r matches Ok(InputData::Int(id)) && int_text(id as int) == s
        } else {
            is_form_error(r, "foreign key"@)
        },
        InputType::Float => match bits {
            Some(b) => r == Ok::<InputData, PageError>(InputData::Float(b)),
            None => is_form_error(r, "float"@),
        },
        InputType::FloatOption => r == Ok::<InputData, PageError>(InputData::FloatOption(bits)),
    }
}

/// Whether the text `s` fails to coerce in a field of kind `kind`.
pub open spec fn fails(kind: InputType, s: Seq<char>, bits: Option<u32>) -> bool {
    match kind {
        InputType::Date => chrono_date_of(s) is None,
        InputType::Time => chrono_time_of(s) is None,
        InputType::Range(_, _) => integer_in(s, -128, 127) is None,
        InputType::Int => integer_in(s, i32::MIN as int, i32::MAX as int) is None,
        InputType::DropDown(options) => !offers(options@, s),
        InputType::Float => bits is None,
        _ => false,
    }
}

impl InputType {
    /// Coerces the text `s` of a field of this kind; see `coerces_to`. The
    /// texts that refill the form from a record read back to its values.
    pub fn to_data(&self, s: &str, bits: Option<u32>) -> (r: Result<InputData, PageError>)
        ensures
            coerces_to(*self, s@, bits, r),
            r is Ok <==> !fails(*self, s@, bits),
            *self is Date ==> forall|v: DateView| valid_date(v) && s@ == date_input(v)
                ==> (r matches Ok(InputData::Date(d)) && d@ == v),
            *self is Time ==> forall|v: TimeView| valid_time(v) && v.second == 0 && s@ == time_input(v)
                ==> (r matches Ok(InputData::Time(t)) && t@ == v),
            *self is TimeOption ==> forall|v: TimeView| valid_time(v) && v.second == 0 && s@ == time_input(v)
                ==> (r matches Ok(InputData::TimeOption(Some(t))) && t@ == v),
    {
        match self {
            InputType::Date => match parse_date(s) {
                Some(d) => Ok(InputData::Date(d)),
                None => Err(PageError::form("date")),
            },
            InputType::Time => match parse_time(s) {
                Some(t) => Ok(InputData::Time(t)),
                None => Err(PageError::form("time")),
            },
            InputType::TimeOption => Ok(InputData::TimeOption(parse_time(s))),
            InputType::Range(_, _) => match read_i8(s) {
                Some(v) => Ok(InputData::Byte(v)),
                None => Err(PageError::form("range")),
            },
            InputType::Int => match read_i32(s) {
                Some(v) => Ok(InputData::Int(v)),
                None => Err(PageError::form("integer")),
            },
            InputType::IntOption => Ok(InputData::IntOption(read_i32(s))),
            InputType::Text => Ok(InputData::Text(s.to_string())),
            InputType::TextOption => {
                if s.is_empty() {
                    Ok(InputData::TextOption(None))
                } else {
                    Ok(InputData::TextOption(Some(s.to_string())))
                }
            },
            InputType::DropDown(options) => match choose_option(options, s) {
                Some(id) => Ok(InputData::Int(id)),
                None => Err(PageError::form("foreign key")),
            },
            InputType::Float => match bits {
                Some(b) => Ok(InputData::Float(b)),
                None => Err(PageError::form("float")),
            },
            InputType::FloatOption => Ok(InputData::FloatOption(bits)),
        }
    }

    /// The text a new field of this kind starts with: the date `today` for
    /// a date, empty otherwise.
    pub fn default_value(&self, today: &Date) -> (r: String)
        ensures
            *self is Date ==> r@ == date_input(today@),
            !(*self is Date) ==> r@ == Seq::<char>::empty(),
    {
        match self {
            InputType::Date => today.input_text(),
            _ => String::new(),
        }
    }
}

impl InputData {
    pub fn try_date(&self) -> (r: Result<Date, PageError>)
        ensures
            *self matches InputData::Date(v) ==> r == Ok::<Date, PageError>(v),
            !(*self is Date) ==> r == Err::<Date, PageError>(PageError::Developer),
    {
        match self {
            InputData::Date(v) => Ok(*v),
            _ => Err(PageError::Developer),
        }
    }

    pub fn try_time(&self) -> (r: Result<Time, PageError>)
        ensures
            *self matches InputData::Time(v) ==> r == Ok::<Time, PageError>(v),
            !(*self is Time) ==> r == Err::<Time, PageError>(PageError::Developer),
    {
        match self {
            InputData::Time(v) => Ok(*v),
            _ => Err(PageError::Developer),
        }
    }

    pub fn try_time_option(&self) -> (r: Result<Option<Time>, PageError>)
        ensures
            *self matches InputData::TimeOption(v) ==> r == Ok::<Option<Time>, PageError>(v),
            !(*self is TimeOption) ==> r == Err::<Option<Time>, PageError>(PageError::Developer),
    {
        match self {
            InputData::TimeOption(v) => Ok(*v),
            _ => Err(PageError::Developer),
        }
    }

    pub fn try_byte(&self) -> (r: Result<i8, PageError>)
        ensures
            *self matches InputData::Byte(v) ==> r == Ok::<i8, PageError>(v),
            !(*self is Byte) ==> r == Err::<i8, PageError>(PageError::Developer),
    {
        match self {
            InputData::Byte(v) => Ok(*v),
            _ => Err(PageError::Developer),
        }
    }

    pub fn try_int(&self) -> (r: Result<i32, PageError>)
        ensures
            *self matches InputData::Int(v) ==> r == Ok::<i32, PageError>(v),
            !(*self is Int) ==> r == Err::<i32, PageError>(PageError::Developer),
    {
        match self {
            InputData::Int(v) => Ok(*v),
            _ => Err(PageError::Developer),
        }
    }

    pub fn try_int_option(&self) -> (r: Result<Option<i32>, PageError>)
        ensures
            *self matches InputData::IntOption(v) ==> r == Ok::<Option<i32>, PageError>(v),
            !(*self is IntOption) ==> r == Err::<Option<i32>, PageError>(PageError::Developer),
    {
        match self {
            InputData::IntOption(v) => Ok(*v),
            _ => Err(PageError::Developer),
        }
    }

    pub fn try_float(&self) -> (r: Result<u32, PageError>)
        ensures
            *self matches InputData::Float(v) ==> r == Ok::<u32, PageError>(v),
            !(*self is Float) ==> r == Err::<u32, PageError>(PageError::Developer),
    {
        match self {
            InputData::Float(v) => Ok(*v),
            _ => Err(PageError::Developer),
        }
    }

    pub fn try_float_option(&self) -> (r: Result<Option<u32>, PageError>)
        ensures
            *self matches InputData::FloatOption(v) ==> r == Ok::<Option<u32>, PageError>(v),
            !(*self is FloatOption) ==> r == Err::<Option<u32>, PageError>(PageError::Developer),
    {
        match self {
            InputData::FloatOption(v) => Ok(*v),
            _ => Err(PageError::Developer),
        }
    }

    pub fn try_text(&self) -> (r: Result<String, PageError>)
        ensures
            *self matches InputData::Text(v) ==> r matches Ok(t) && t@ == v@,
            !(*self is Text) ==> r == Err::<String, PageError>(PageError::Developer),
    {
        match self {
            InputData::Text(v) => Ok(v.clone()),
            _ => Err(PageError::Developer),
        }
    }

    pub fn try_text_option(&self) -> (r: Result<Option<String>, PageError>)
        ensures
            *self matches InputData::TextOption(v) ==> r matches Ok(t) && opt_text_view(t) == opt_text_view(v),
            !(*self is TextOption) ==> r == Err::<Option<String>, PageError>(PageError::Developer),
    {
        match self {
            InputData::TextOption(Some(v)) => Ok(Some(v.clone())),
            InputData::TextOption(None) => Ok(None),
            _ => Err(PageError::Developer),
        }
    }
}

/// A change to the text of one field, by its position in the form.
pub enum FormMsg {
    UpdateValue(usize, String),
    Clear(usize),
}

/// A named field of a form with the text typed into it.
#[derive(Clone, Debug)]
pub struct Input {
    pub name: String,
    pub value: String,
    pub typ: InputType,
}

impl Input {
    /// A field that starts with the default text of its kind, a date field
    /// with the date `today`.
    pub fn new(name: &str, typ: InputType, today: &Date) -> (r: Input)
        ensures
            r.name@ == name@,
            r.typ == typ,
            !(typ is Date) ==> r.value@ == Seq::<char>::empty(),
            typ is Date ==> r.value@ == date_input(today@),
    {
        let default = typ.default_value(today);
        Input { name: name.to_string(), value: default, typ }
    }

    /// A field that starts with the text `value`.
    pub fn with_initial(name: &str, typ: InputType, value: &str) -> (r: Input)
        ensures
            r.name@ == name@,
            r.typ == typ,
            r.value@ == value@,
    {
        Input { name: name.to_string(), value: value.to_string(), typ }
    }

    /// The value of the field, or the error that names it.
    pub fn get_data(&self, bits: Option<u32>) -> (r: Result<InputData, PageError>)
        ensures
            r is Ok <==> !fails(self.typ, self.value@, bits),
            r is Ok ==> coerces_to(self.typ, self.value@, bits, r),
            r is Err ==> is_form_error(r, self.name@),
    {
        match self.typ.to_data(self.value.as_str(), bits) {
            Ok(d) => Ok(d),
            Err(_) => Err(PageError::form(self.name.as_str())),
        }
    }
}

/// The fields of a form, in the order they are shown.
#[derive(Clone, Debug)]
pub struct Form {
    pub inputs: Vec<Input>,
}

/// The form after `msg`: the field it names gets the new text; a position
/// past the last field changes nothing.
pub open spec fn form_after(f: Seq<Input>, g: Seq<Input>, msg: FormMsg) -> bool {
    let (i, text) = match msg {
        FormMsg::UpdateValue(i, s) => (i as int, s@),
        FormMsg::Clear(i) => (i as int, Seq::<char>::empty()),
    };
    &&& g.len() == f.len()
    &&& forall|j: int| 0 <= j < f.len() && j != i ==> g[j] == f[j]
    &&& 0 <= i < f.len() ==> g[i].name == f[i].name && g[i].typ == f[i].typ && g[i].value@ == text
}

/// What coercing the fields `inputs`, in order, gives: every value when no
/// field fails, else the error that names the first field that fails; a
/// developer error when `bits` does not hold one entry per field.
pub open spec fn gathered(inputs: Seq<Input>, bits: Seq<Option<u32>>, r: Result<Vec<InputData>, PageError>) -> bool {
    &&& bits.len() != inputs.len() ==> r == Err::<Vec<InputData>, PageError>(PageError::Developer)
    &&& bits.len() == inputs.len() ==> {
        &&& r is Ok <==> forall|j: int| 0 <= j < inputs.len() ==> !fails(#[trigger] inputs[j].typ, inputs[j].value@, bits[j])
        &&& r matches Ok(v) ==> v@.len() == inputs.len() && forall|j: int| 0 <= j < v@.len()
            ==> coerces_to(inputs[j].typ, inputs[j].value@, bits[j], Ok(#[trigger] v@[j]))
        &&& r is Err ==> exists|k: int| 0 <= k < inputs.len()
            && fails(inputs[k].typ, inputs[k].value@, bits[k])
            && (forall|j: int| 0 <= j < k ==> !fails(#[trigger] inputs[j].typ, inputs[j].value@, bits[j]))
            && is_form_error(r, inputs[k].name@)
    }
}

impl Form {
    pub fn update(&mut self, msg: FormMsg)
        ensures
            form_after(old(self).inputs@, final(self).inputs@, msg),
    {
        match msg {
            FormMsg::UpdateValue(i, s) => {
                if i < self.inputs.len() {
                    self.inputs[i].value = s;
                }
            },
            FormMsg::Clear(i) => {
                if i < self.inputs.len() {
                    self.inputs[i].value = String::new();
                }
            },
        }
    }

    /// Makes the field at position `i` a choice among `options`, keeping its
    /// name and clearing its text; a position past the last field changes
    /// nothing.
    pub fn offer(&mut self, i: usize, options: Vec<(i32, String)>)
        ensures
            final(self).inputs@.len() == old(self).inputs@.len(),
            forall|j: int| 0 <= j < old(self).inputs@.len() && j != i ==> #[trigger] final(self).inputs@[j] == old(self).inputs@[j],
            i < old(self).inputs@.len() ==> {
                &&& final(self).inputs@[i as int].name@ == old(self).inputs@[i as int].name@
                &&& final(self).inputs@[i as int].typ == InputType::DropDown(options)
                &&& final(self).inputs@[i as int].value@ == Seq::<char>::empty()
            },
    {
        if i < self.inputs.len() {
            let name = self.inputs[i].name.clone();
            self.inputs.set(i, Input { name, value: String::new(), typ: InputType::DropDown(options) });
        }
    }

    /// Puts `values` into the fields, in order, as far as both go.
    pub fn set_all(&mut self, values: &Vec<String>)
        ensures
            final(self).inputs@.len() == old(self).inputs@.len(),
            forall|j: int| 0 <= j < old(self).inputs@.len() ==> {
                &&& #[trigger] final(self).inputs@[j].name == old(self).inputs@[j].name
                &&& final(self).inputs@[j].typ == old(self).inputs@[j].typ
                &&& final(self).inputs@[j].value@ == (if j < values@.len() { values@[j]@ } else { old(self).inputs@[j].value@ })
            },
    {
        let mut i: usize = 0;
        while i < self.inputs.len() && i < values.len()
            invariant
                i <= self.inputs@.len(),
                i <= values@.len(),
                self.inputs@.len() == old(self).inputs@.len(),
                forall|j: int| #![trigger self.inputs@[j]] 0 <= j < self.inputs@.len() ==> {
                    &&& self.inputs@[j].name == old(self).inputs@[j].name
                    &&& self.inputs@[j].typ == old(self).inputs@[j].typ
                    &&& self.inputs@[j].value@ == (if j < i { values@[j]@ } else { old(self).inputs@[j].value@ })
                },
            decreases self.inputs@.len() - i,
        {
            let ghost before = self.inputs@;
            self.inputs[i].value = values[i].clone();
            proof {
                assert forall|j: int| 0 <= j < self.inputs@.len() && j != i implies #[trigger] self.inputs@[j] == before[j] by {}
                assert(self.inputs@[i as int].value@ == values@[i as int]@);
                assert(self.inputs@[i as int].name == before[i as int].name);
            }
            i = i + 1;
        }
    }

    /// Coerces every field, in order; the first field that fails gives the
    /// error that names it. `bits` holds, field by field, the text read as a
    /// 32-bit float where it reads as one.
    pub fn get_input_data(&self, bits: &Vec<Option<u32>>) -> (r: Result<Vec<InputData>, PageError>)
        ensures
            gathered(self.inputs@, bits@, r),
    {
        if bits.len() != self.inputs.len() {
            return Err(PageError::Developer);
        }
        let mut out: Vec<InputData> = Vec::new();
        let mut i: usize = 0;
        while i < self.inputs.len()
            invariant
                i <= self.inputs@.len(),
                bits@.len() == self.inputs@.len(),
                out@.len() == i,
                forall|j: int| 0 <= j < i ==> !fails(#[trigger] self.inputs@[j].typ, self.inputs@[j].value@, bits@[j]),
                forall|j: int| 0 <= j < i
                    ==> coerces_to(self.inputs@[j].typ, self.inputs@[j].value@, bits@[j], Ok(#[trigger] out@[j])),
            decreases self.inputs@.len() - i,
        {
            match self.inputs[i].get_data(bits[i]) {
                Ok(d) => {
                    out.push(d);
                },
                Err(e) => {
                    return Err(e);
                },
            }
            i = i + 1;
        }
        Ok(out)
    }
}

/// The identifier among `options` whose text is `s`, if there is one.
fn choose_option(options: &Vec<(i32, String)>, s: &str) -> (r: Option<i32>)
    ensures
        r is Some <==> offers(options@, s@),
        r matches Some(id) ==> int_text(id as int) == s@,
{
    let target = s.to_string();
    let mut i: usize = 0;
    while i < options.len()
        invariant
            i <= options@.len(),
            target@ == s@,
            forall|j: int| 0 <= j < i ==> int_text(#[trigger] options@[j].0 as int) != s@,
        decreases options@.len() - i,
    {
        let text = i32_text(options[i].0);
        if text == target {
            return Some(options[i].0);
        }
        i = i + 1;
    }
    None
}

} // verus!
