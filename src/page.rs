//! The client's pages. One page is active at a time; each holds the last
//! listing it fetched, its creation form and the last error. The decisions
//! are made here, from the page and an event to the next page and a command;
//! the caller carries the command out and reports back with the next event.

use vstd::prelude::*;
use crate::form::{form_after, gathered, Form, FormMsg, InputData, InputType, PageError};

verus! {

/// The entries of the page selector.
#[derive(Clone, Copy, Debug, PartialEq, Eq, Structural)]
pub enum PageName {
    Bowel,
    Store,
    GroceryTrip,
    GroceryItem,
    Metric,
    Weight,
}

impl PageName {
    pub open spec fn display_spec(self) -> Seq<char> {
        match self {
            PageName::Bowel => "Bowel Movements"@,
            PageName::Store => "Grocery Stores"@,
            PageName::GroceryTrip => "Grocery Trips"@,
            PageName::GroceryItem => "Grocery Items"@,
            PageName::Metric => "Body Metrics"@,
            PageName::Weight => "Weight"@,
        }
    }

    /// The label of the page in the selector.
    pub fn display_name(&self) -> (r: String)
        ensures
            r@ == self.display_spec(),
    {
        match self {
            PageName::Bowel => "Bowel Movements",
            PageName::Store => "Grocery Stores",
            PageName::GroceryTrip => "Grocery Trips",
            PageName::GroceryItem => "Grocery Items",
            PageName::Metric => "Body Metrics",
            PageName::Weight => "Weight",
        }.to_string()
    }
}

/// Which page is active, and how many times the active page was switched.
/// A response is for the active page only if it is tagged with both.
#[derive(Clone, Copy, Debug, PartialEq, Eq)]
pub struct Navigator {
    pub active: PageName,
    pub generation: u64,
}

impl Navigator {
    /// The first page shown: bowel movements.
    pub fn new() -> (r: Navigator)
        ensures
            r.active == PageName::Bowel,
            r.generation == 0,
    {
        Navigator { active: PageName::Bowel, generation: 0 }
    }

    /// Makes `page` the active page; what was fetched for an earlier page is
    /// no longer accepted. Returns the tag of the fetches of the new page.
    pub fn switch_to(&mut self, page: PageName) -> (r: u64)
        ensures
            final(self).active == page,
            final(self).generation == r,
            r != old(self).generation,
    {
        self.generation = self.generation.wrapping_add(1);
        self.active = page;
        self.generation
    }

    /// Whether a response fetched for `page` under the tag `generation` is
    /// for the active page.
    pub fn accepts(&self, page: PageName, generation: u64) -> (r: bool)
        ensures
            r == (page == self.active && generation == self.generation),
    {
        page == self.active && generation == self.generation
    }
}

/// `label: value` for one column of a row.
pub open spec fn pair_line(label: Seq<char>, value: Seq<char>) -> Seq<char> {
    label + ": "@ + value
}

/// The first `n` columns, one `label: value` line each.
pub open spec fn pair_lines(labels: Seq<Seq<char>>, values: Seq<Seq<char>>, n: nat) -> Seq<char>
    decreases n,
{
    if n == 0 {
        Seq::empty()
    } else if n == 1 {
        pair_line(labels[0], values[0])
    } else {
        pair_lines(labels, values, (n - 1) as nat) + "\n"@ + pair_line(labels[n - 1], values[n - 1])
    }
}

pub open spec fn confirm_text(labels: Seq<Seq<char>>, values: Seq<Seq<char>>) -> Seq<char> {
    let n = if labels.len() <= values.len() { labels.len() } else { values.len() };
    "Are you sure you want to delete this item?\n"@ + pair_lines(labels, values, n)
}

/// The question put to the user before a row is deleted: the row shown as
/// `label: value` lines, one per column.
pub fn confirm_message(headers: &Vec<String>, cells: &Vec<String>) -> (r: String)
    ensures
        r@ == confirm_text(headers.deep_view(), cells.deep_view()),
{
    let n: usize = if headers.len() <= cells.len() { headers.len() } else { cells.len() };
    let mut r = "Are you sure you want to delete this item?\n".to_string();
    let ghost prefix = r@;
    let mut i: usize = 0;
    while i < n
        invariant
            i <= n,
            n <= headers@.len(),
            n <= cells@.len(),
            r@ == prefix + pair_lines(headers.deep_view(), cells.deep_view(), i as nat),
        decreases n - i,
    {
        if i > 0 {
            r.append("\n");
        }
        r.append(headers[i].as_str());
        r.append(": ");
        r.append(cells[i].as_str());
        proof {
            if i > 0 {
                assert(r@ =~= prefix + pair_lines(headers.deep_view(), cells.deep_view(), (i + 1) as nat));
            } else {
                assert(r@ =~= prefix + pair_lines(headers.deep_view(), cells.deep_view(), 1));
            }
        }
        i = i + 1;
    }
    r
}

/// The state of one page over records of type `R`.
pub struct Page<R> {
    pub rows: Vec<R>,
    pub form: Form,
    pub err: Option<PageError>,
}

/// What happens on a page.
pub enum Msg<R> {
    /// The page asks for its listing.
    Fetch,
    /// The listing arrived, or could not be fetched.
    Fetched(Result<Vec<R>, PageError>),
    /// A field of the form changed.
    FormUpdate(FormMsg),
    /// The user wants to edit the row at this position.
    Edit(usize),
    /// The texts that put a row back into the form.
    Prefill(Vec<String>),
    /// The user wants to delete the row at this position.
    Delete(usize),
    /// The user confirmed the deletion of the row at this position.
    DeleteConfirmed(usize),
    /// The server answered a deletion.
    Deleted(Result<(), PageError>),
    /// The user submits the form; for each field, its text read as a 32-bit
    /// float where it reads as one.
    Submit(Vec<Option<u32>>),
    /// The server answered a creation.
    Submitted(Result<(), PageError>),
    /// The choices of the drop-down field at this position arrived, or could
    /// not be fetched.
    OptionsFetched(usize, Result<Vec<(i32, String)>, PageError>),
}

/// What the caller does next.
pub enum Command {
    Nothing,
    /// Fetch the listing; answer with `Fetched`.
    Load,
    /// Put the row at this position into the form; answer with `Prefill`.
    Prefill(usize),
    /// Ask the user to confirm the deletion of the row at this position;
    /// answer with `DeleteConfirmed` if they do.
    Confirm(usize),
    /// Send the deletion of the row at this position; answer with `Deleted`.
    Remove(usize),
    /// Compose the record from these values and send its creation; answer
    /// with `Submitted`.
    Post(Vec<InputData>),
}

impl<R> Page<R> {
    /// A page with nothing fetched yet and the given form.
    pub fn init(form: Form) -> (r: Page<R>)
        ensures
            r.rows@.len() == 0,
            r.form == form,
            r.err is None,
    {
        Page { rows: Vec::new(), form, err: None }
    }

    /// The page after `msg`, and what the caller does next.
    pub fn update(&mut self, msg: Msg<R>) -> (c: Command)
        ensures
            match msg {
                Msg::Fetch => c is Load && *final(self) == *old(self),
                Msg::Fetched(Ok(rows)) => c is Nothing && final(self).rows == rows
                    && final(self).form == old(self).form && final(self).err == old(self).err,
                Msg::Fetched(Err(e)) => c is Nothing && final(self).rows == old(self).rows
                    && final(self).form == old(self).form && final(self).err == Some(e),
                Msg::FormUpdate(m) => c is Nothing && final(self).rows == old(self).rows
                    && form_after(old(self).form.inputs@, final(self).form.inputs@, m)
                    && final(self).err == old(self).err,
                Msg::Edit(i) => *final(self) == *old(self)
                    && (if i < old(self).rows@.len() { c == Command::Prefill(i) } else { c is Nothing }),
                Msg::Prefill(values) => c is Nothing && final(self).rows == old(self).rows
                    && final(self).err == old(self).err
                    && final(self).form.inputs@.len() == old(self).form.inputs@.len()
                    && forall|j: int| 0 <= j < old(self).form.inputs@.len() ==> {
                        &&& #[trigger] final(self).form.inputs@[j].name == old(self).form.inputs@[j].name
                        &&& final(self).form.inputs@[j].typ == old(self).form.inputs@[j].typ
                        &&& final(self).form.inputs@[j].value@ == (if j < values@.len() { values@[j]@ } else { old(self).form.inputs@[j].value@ })
                    },
                Msg::Delete(i) => *final(self) == *old(self)
                    && (if i < old(self).rows@.len() { c == Command::Confirm(i) } else { c is Nothing }),
                Msg::DeleteConfirmed(i) => *final(self) == *old(self)
                    && (if i < old(self).rows@.len() { c == Command::Remove(i) } else { c is Nothing }),
                Msg::Deleted(Ok(())) => c is Load && *final(self) == *old(self),
                Msg::Deleted(Err(e)) => c is Nothing && final(self).rows == old(self).rows
                    && final(self).form == old(self).form && final(self).err == Some(e),
                Msg::Submit(bits) => final(self).rows == old(self).rows && final(self).form == old(self).form
                    && (c is Post || c is Nothing)
                    && (c matches Command::Post(v) ==> gathered(old(self).form.inputs@, bits@, Ok(v)) && final(self).err is None)
                    && (c is Nothing ==> (final(self).err matches Some(e) && gathered(old(self).form.inputs@, bits@, Err(e)))),
                Msg::Submitted(Ok(())) => c is Load && *final(self) == *old(self),
                Msg::Submitted(Err(e)) => c is Nothing && final(self).rows == old(self).rows
                    && final(self).form == old(self).form && final(self).err == Some(e),
                Msg::OptionsFetched(i, Ok(options)) => c is Nothing && final(self).rows == old(self).rows
                    && final(self).err == old(self).err
                    && final(self).form.inputs@.len() == old(self).form.inputs@.len()
                    && (forall|j: int| 0 <= j < old(self).form.inputs@.len() && j != i
                        ==> #[trigger] final(self).form.inputs@[j] == old(self).form.inputs@[j])
                    && (i < old(self).form.inputs@.len() ==> {
                        &&& final(self).form.inputs@[i as int].name@ == old(self).form.inputs@[i as int].name@
                        &&& final(self).form.inputs@[i as int].typ == InputType::DropDown(options)
                        &&& final(self).form.inputs@[i as int].value@ == Seq::<char>::empty()
                    }),
                Msg::OptionsFetched(_, Err(e)) => c is Nothing && final(self).rows == old(self).rows
                    && final(self).form == old(self).form && final(self).err == Some(e),
            },
    {
        match msg {
            Msg::Fetch => Command::Load,
            Msg::Fetched(Ok(rows)) => {
                self.rows = rows;
                Command::Nothing
            },
            Msg::Fetched(Err(e)) => {
                self.err = Some(e);
                Command::Nothing
            },
            Msg::FormUpdate(m) => {
                self.form.update(m);
                Command::Nothing
            },
            Msg::Edit(i) => {
                if i < self.rows.len() {
                    Command::Prefill(i)
                } else {
                    Command::Nothing
                }
            },
            Msg::Prefill(values) => {
                self.form.set_all(&values);
                Command::Nothing
            },
            Msg::Delete(i) => {
                if i < self.rows.len() {
                    Command::Confirm(i)
                } else {
                    Command::Nothing
                }
            },
            Msg::DeleteConfirmed(i) => {
                if i < self.rows.len() {
                    Command::Remove(i)
                } else {
                    Command::Nothing
                }
            },
            Msg::Deleted(Ok(())) => Command::Load,
            Msg::Deleted(Err(e)) => {
                self.err = Some(e);
                Command::Nothing
            },
            Msg::Submit(bits) => match self.form.get_input_data(&bits) {
                Ok(data) => {
                    self.err = None;
                    Command::Post(data)
                },
                Err(e) => {
                    self.err = Some(e);
                    Command::Nothing
                },
            },
            Msg::Submitted(Ok(())) => Command::Load,
            Msg::Submitted(Err(e)) => {
                self.err = Some(e);
                Command::Nothing
            },
            Msg::OptionsFetched(i, Ok(options)) => {
                self.form.offer(i, options);
                Command::Nothing
            },
            Msg::OptionsFetched(_, Err(e)) => {
                self.err = Some(e);
                Command::Nothing
            },
        }
    }
}

} // verus!
