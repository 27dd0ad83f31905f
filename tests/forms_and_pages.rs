use diet_database::bowel::{Bowel, NewBowel};
use diet_database::calendar::{Date, Time};
use diet_database::form::{Form, FormMsg, Input, InputData, InputType, PageError};
use diet_database::grocery_trip::{GroceryTrip, GroceryTripRow, NewGroceryTrip};
use diet_database::measures::{NewGroceryItem, NewMetric, NewWeight};
use diet_database::listing::{bowels_by_date_desc, join_items, join_trips};
use diet_database::page::{confirm_message, Command, Msg, Navigator, Page, PageName};
use diet_database::resource::{endpoint, listed, write_status, Status};
use diet_database::store::{NewStore, Store};
use diet_database::table::{Row, TableType};

fn date(y: i32, m: u32, d: u32) -> Date {
    Date::new(y, m, d).unwrap()
}

fn form_error(name: &str) -> PageError {
    PageError::Form(name.to_string())
}

#[test]
fn date_field_accepts_only_year_month_day() {
    let f = InputType::Date;
    assert_eq!(f.to_data("2021/01/01", None), Err(form_error("date")));
    assert_eq!(f.to_data("not-a-date", None), Err(form_error("date")));
    assert_eq!(f.to_data("2021-01-01", None), Ok(InputData::Date(date(2021, 1, 1))));
    assert_eq!(f.to_data("2021-02-30", None), Err(form_error("date")));
}

#[test]
fn time_fields_required_and_optional() {
    let t = Time::new(18, 30, 0).unwrap();
    assert_eq!(InputType::TimeOption.to_data("", None), Ok(InputData::TimeOption(None)));
    assert_eq!(InputType::TimeOption.to_data("25:99", None), Ok(InputData::TimeOption(None)));
    assert_eq!(InputType::TimeOption.to_data("18:30", None), Ok(InputData::TimeOption(Some(t))));
    assert_eq!(InputType::Time.to_data("25:99", None), Err(form_error("time")));
    assert_eq!(InputType::Time.to_data("", None), Err(form_error("time")));
    assert_eq!(InputType::Time.to_data("18:30", None), Ok(InputData::Time(t)));
}

#[test]
fn dropdown_takes_only_offered_identifiers() {
    let f = InputType::DropDown(vec![(1, "Market".to_string()), (7, "Corner".to_string())]);
    assert_eq!(f.to_data("abc", None), Err(form_error("foreign key")));
    assert_eq!(f.to_data("3", None), Err(form_error("foreign key")));
    assert_eq!(f.to_data("", None), Err(form_error("foreign key")));
    assert_eq!(f.to_data("07", None), Err(form_error("foreign key")));
    assert_eq!(f.to_data("7", None), Ok(InputData::Int(7)));
    let none = InputType::DropDown(vec![]);
    assert_eq!(none.to_data("1", None), Err(form_error("foreign key")));
}

#[test]
fn numeric_and_text_fields() {
    assert_eq!(InputType::Range(1, 7).to_data("4", None), Ok(InputData::Byte(4)));
    assert_eq!(InputType::Range(1, 7).to_data("300", None), Err(form_error("range")));
    assert_eq!(InputType::Int.to_data("-12", None), Ok(InputData::Int(-12)));
    assert_eq!(InputType::Int.to_data("x", None), Err(form_error("integer")));
    assert_eq!(InputType::IntOption.to_data("x", None), Ok(InputData::IntOption(None)));
    assert_eq!(InputType::IntOption.to_data("5", None), Ok(InputData::IntOption(Some(5))));
    assert_eq!(InputType::Text.to_data("", None), Ok(InputData::Text(String::new())));
    assert_eq!(InputType::TextOption.to_data("", None), Ok(InputData::TextOption(None)));
    assert_eq!(InputType::TextOption.to_data("kg", None), Ok(InputData::TextOption(Some("kg".to_string()))));
    let bits = 1.5f32.to_bits();
    assert_eq!(InputType::Float.to_data("1.5", Some(bits)), Ok(InputData::Float(bits)));
    assert_eq!(InputType::Float.to_data("x", None), Err(form_error("float")));
    assert_eq!(InputType::FloatOption.to_data("x", None), Ok(InputData::FloatOption(None)));
}

#[test]
fn page_error_messages() {
    assert_eq!(PageError::form("Scale").message(), "Field Scale is invalid");
    assert_eq!(PageError::Submit.message(), "Error submitting to api");
    assert_eq!(PageError::Delete.message(), "Unable to delete item");
    assert_eq!(PageError::Load.message(), "Cannot retrieve data");
    assert_eq!(PageError::Developer.message(), "The developer made a mistake!");
}

#[test]
fn form_names_the_first_invalid_field() {
    let mut form = NewBowel::form(&date(2021, 6, 1));
    form.update(FormMsg::UpdateValue(0, "2021-13-01".to_string()));
    form.update(FormMsg::UpdateValue(2, "abc".to_string()));
    let bits = vec![None, None, None];
    assert_eq!(form.get_input_data(&bits), Err(form_error("Date")));
    form.update(FormMsg::UpdateValue(0, "2020-01-01".to_string()));
    assert_eq!(form.get_input_data(&bits), Err(form_error("Scale")));
    form.update(FormMsg::UpdateValue(2, "5".to_string()));
    let data = form.get_input_data(&bits).unwrap();
    assert_eq!(
        NewBowel::from_input_data(data),
        Ok(NewBowel { date: date(2020, 1, 1), time: None, scale: 5 })
    );
    assert_eq!(form.get_input_data(&vec![None]), Err(PageError::Developer));
}

#[test]
fn form_updates_and_prefill() {
    let mut form = Form {
        inputs: vec![Input::with_initial("A", InputType::Text, "x"), Input::new("B", InputType::TimeOption, &date(2021, 6, 1))],
    };
    form.update(FormMsg::UpdateValue(5, "ignored".to_string()));
    assert_eq!(form.inputs[0].value, "x");
    form.update(FormMsg::Clear(0));
    assert_eq!(form.inputs[0].value, "");
    form.set_all(&vec!["one".to_string()]);
    assert_eq!(form.inputs[0].value, "one");
    assert_eq!(form.inputs[1].value, "");
    assert_eq!(NewBowel::form(&date(2021, 6, 1)).inputs[2].value, "4");
    assert_eq!(NewBowel::form(&date(2021, 6, 1)).inputs[0].value, "2021-06-01");
}

#[test]
fn store_needs_a_name() {
    let mut form = NewStore::form();
    let data = form.get_input_data(&vec![None]).unwrap();
    assert_eq!(NewStore::from_input_data(data), Err(form_error("name")));
    form.update(FormMsg::UpdateValue(0, "Market".to_string()));
    let data = form.get_input_data(&vec![None]).unwrap();
    assert_eq!(NewStore::from_input_data(data), Ok(NewStore { name: "Market".to_string() }));
}

#[test]
fn bowels_listed_latest_first() {
    let rows = vec![
        Bowel { id: 1, date: date(2021, 1, 1), time: None, scale: 3 },
        Bowel { id: 2, date: date(2021, 3, 1), time: None, scale: 4 },
        Bowel { id: 3, date: date(2021, 2, 1), time: None, scale: 5 },
    ];
    let listed: Vec<i32> = bowels_by_date_desc(rows).iter().map(|b| b.id).collect();
    assert_eq!(listed, vec![2, 3, 1]);
    let same_day = vec![
        Bowel { id: 1, date: date(2021, 1, 1), time: None, scale: 3 },
        Bowel { id: 2, date: date(2021, 1, 1), time: None, scale: 4 },
        Bowel { id: 3, date: date(2020, 12, 31), time: None, scale: 4 },
    ];
    let listed: Vec<i32> = bowels_by_date_desc(same_day).iter().map(|b| b.id).collect();
    assert_eq!(listed, vec![1, 2, 3]);
    assert!(bowels_by_date_desc(Vec::new()).is_empty());
}

#[test]
fn trips_listed_only_with_existing_store() {
    let d = date(2021, 1, 9);
    let trips = vec![
        GroceryTripRow { id: 1, date: d, time: None, store_id: 10 },
        GroceryTripRow { id: 2, date: d, time: None, store_id: 20 },
    ];
    let stores = vec![Store { id: 10, name: "Market".to_string() }, Store { id: 20, name: "Corner".to_string() }];
    let all = join_trips(&trips, &stores);
    assert_eq!(
        all,
        vec![
            GroceryTrip { id: 1, date: d, time: None, store_name: "Market".to_string() },
            GroceryTrip { id: 2, date: d, time: None, store_name: "Corner".to_string() },
        ]
    );
    let after_delete: Vec<Store> = stores.into_iter().filter(|s| s.id != 10).collect();
    let left = join_trips(&trips, &after_delete);
    assert_eq!(left.len(), 1);
    assert_eq!(left[0].id, 2);
    assert!(join_trips(&trips, &Vec::new()).is_empty());
}

#[test]
fn responses_of_the_resources() {
    assert_eq!(write_status(&Ok::<usize, ()>(0)), Status::Success);
    assert_eq!(write_status(&Ok::<usize, ()>(0)).code(), 200);
    assert_eq!(write_status(&Ok::<usize, ()>(1)).code(), 200);
    assert_eq!(write_status(&Err::<usize, ()>(())).code(), 500);
    assert_eq!(listed(Ok::<Vec<i32>, ()>(vec![1, 2])), vec![1, 2]);
    assert!(listed(Err::<Vec<i32>, ()>(())).is_empty());
    assert_eq!(endpoint("http://localhost:8000", TableType::GroceryTrip), "http://localhost:8000/grocery_trip");
}

#[test]
fn confirmation_lists_the_row() {
    let row = Bowel { id: 1, date: date(2021, 1, 5), time: None, scale: 4 };
    let text = confirm_message(&Bowel::header_row(), &row.cells());
    assert_eq!(text, "Are you sure you want to delete this item?\nDate: Jan 05 2021\nTime: \nScale: 4");
    assert_eq!(confirm_message(&vec![], &vec![]), "Are you sure you want to delete this item?\n");
}

#[test]
fn page_state_machine() {
    let mut page: Page<Bowel> = Page::init(NewBowel::form(&date(2021, 6, 1)));
    assert!(matches!(page.update(Msg::Fetch), Command::Load));
    assert!(matches!(page.update(Msg::Delete(0)), Command::Nothing));
    let row = Bowel { id: 1, date: date(2021, 1, 5), time: None, scale: 4 };
    assert!(matches!(page.update(Msg::Fetched(Ok(vec![row]))), Command::Nothing));
    assert_eq!(page.rows.len(), 1);
    assert!(matches!(page.update(Msg::Delete(0)), Command::Confirm(0)));
    assert!(matches!(page.update(Msg::DeleteConfirmed(0)), Command::Remove(0)));
    assert!(matches!(page.update(Msg::Deleted(Ok(()))), Command::Load));
    assert!(matches!(page.update(Msg::Edit(0)), Command::Prefill(0)));
    page.update(Msg::Prefill(page.rows[0].input_values()));
    assert_eq!(page.form.inputs[0].value, "2021-01-05");
    page.update(Msg::FormUpdate(FormMsg::UpdateValue(2, "x".to_string())));
    assert!(matches!(page.update(Msg::Submit(vec![None, None, None])), Command::Nothing));
    assert_eq!(page.err, Some(form_error("Scale")));
    page.update(Msg::FormUpdate(FormMsg::UpdateValue(2, "6".to_string())));
    match page.update(Msg::Submit(vec![None, None, None])) {
        Command::Post(data) => assert_eq!(
            NewBowel::from_input_data(data),
            Ok(NewBowel { date: date(2021, 1, 5), time: None, scale: 6 })
        ),
        _ => panic!("expected a post"),
    }
    assert_eq!(page.err, None);
    assert!(matches!(page.update(Msg::Submitted(Err(PageError::Submit))), Command::Nothing));
    assert_eq!(page.err, Some(PageError::Submit));
    assert!(matches!(page.update(Msg::Fetched(Err(PageError::Load))), Command::Nothing));
    assert_eq!(page.err, Some(PageError::Load));
    assert_eq!(page.rows.len(), 1);
}

#[test]
fn trip_form_offers_stores() {
    let form = NewGroceryTrip::form(&date(2021, 6, 1), vec![(4, "Market".to_string())]);
    let mut page: Page<GroceryTrip> = Page::init(form);
    page.update(Msg::FormUpdate(FormMsg::UpdateValue(0, "2021-05-06".to_string())));
    page.update(Msg::FormUpdate(FormMsg::UpdateValue(2, "4".to_string())));
    match page.update(Msg::Submit(vec![None, None, None])) {
        Command::Post(data) => assert_eq!(
            NewGroceryTrip::from_input_data(data),
            Ok(NewGroceryTrip { date: date(2021, 5, 6), time: None, store_id: 4 })
        ),
        _ => panic!("expected a post"),
    }
    page.update(Msg::FormUpdate(FormMsg::UpdateValue(2, "5".to_string())));
    assert!(matches!(page.update(Msg::Submit(vec![None, None, None])), Command::Nothing));
    assert_eq!(page.err, Some(form_error("Store")));
}

#[test]
fn navigator_discards_stale_responses() {
    let mut nav = Navigator::new();
    assert_eq!(nav.active, PageName::Bowel);
    let first = nav.generation;
    let tag = nav.switch_to(PageName::Store);
    assert!(nav.accepts(PageName::Store, tag));
    assert!(!nav.accepts(PageName::Bowel, first));
    let again = nav.switch_to(PageName::Store);
    assert!(!nav.accepts(PageName::Store, tag));
    assert!(nav.accepts(PageName::Store, again));
    assert_eq!(PageName::GroceryItem.display_name(), "Grocery Items");
    assert_eq!(PageName::Metric.display_name(), "Body Metrics");
}

#[test]
fn items_listed_with_their_trip() {
    let trips = vec![
        GroceryTripRow { id: 1, date: date(2021, 1, 9), time: None, store_id: 10 },
        GroceryTripRow { id: 2, date: date(2021, 1, 10), time: None, store_id: 99 },
    ];
    let stores = vec![Store { id: 10, name: "Market".to_string() }];
    let listed = join_items(&vec![1, 2, 3, 1], &trips, &stores);
    assert_eq!(listed, vec![(0, "Market on 2021-01-09".to_string()), (3, "Market on 2021-01-09".to_string())]);
    assert!(join_items(&vec![1], &trips, &Vec::new()).is_empty());
}

#[test]
fn measurement_forms() {
    let w = diet_database::measures::weight_form(&date(2021, 6, 1));
    assert_eq!(w.inputs.len(), 3);
    assert_eq!(w.inputs[2].name, "Weight");
    assert!(matches!(w.inputs[2].typ, InputType::Float));
    assert_eq!(w.inputs[0].value, "2021-06-01");
    let m = diet_database::measures::metric_form(&date(2021, 6, 1));
    let names: Vec<&str> = m.inputs.iter().map(|i| i.name.as_str()).collect();
    assert_eq!(names, vec!["Date", "Time", "Body Fat", "Gut", "Waist", "Chest", "Thigh"]);
    assert!(m.inputs[2..].iter().all(|i| matches!(i.typ, InputType::FloatOption) && i.value.is_empty()));
    let g = diet_database::measures::grocery_item_form(vec![(3, "2021-01-09".to_string())]);
    assert_eq!(g.inputs[0].name, "Trip");
    assert_eq!(g.inputs[0].typ.to_data("3", None), Ok(InputData::Int(3)));
    assert_eq!(g.inputs[3].typ.to_data("", None), Ok(InputData::TextOption(None)));
}

#[test]
fn drop_down_options_arrive() {
    let mut page: Page<GroceryTrip> = Page::init(NewGroceryTrip::form(&date(2021, 6, 1), vec![]));
    page.update(Msg::FormUpdate(FormMsg::UpdateValue(2, "4".to_string())));
    let c = page.update(Msg::OptionsFetched(2, Ok(vec![(4, "Market".to_string())])));
    assert!(matches!(c, Command::Nothing));
    assert_eq!(page.form.inputs[2].name, "Store");
    assert_eq!(page.form.inputs[2].value, "");
    assert_eq!(page.form.inputs[2].typ.to_data("4", None), Ok(InputData::Int(4)));
    assert_eq!(page.err, None);
    page.update(Msg::OptionsFetched(9, Ok(vec![])));
    assert_eq!(page.form.inputs.len(), 3);
    page.update(Msg::OptionsFetched(2, Err(PageError::Load)));
    assert_eq!(page.err, Some(PageError::Load));
    assert_eq!(page.form.inputs[2].typ.to_data("4", None), Ok(InputData::Int(4)));
}

#[test]
fn measurement_records_from_input_data() {
    let d = date(2021, 6, 1);
    let bits = 70.5f32.to_bits();
    let w = NewWeight::from_input_data(vec![InputData::Date(d), InputData::TimeOption(None), InputData::Float(bits)]);
    assert_eq!(w, Ok(NewWeight { date: d, time: None, value: bits }));
    assert_eq!(NewWeight::from_input_data(vec![InputData::Date(d)]), Err(PageError::Developer));
    let mut inputs = vec![InputData::Date(d), InputData::TimeOption(None)];
    for i in 0..5u32 {
        inputs.push(InputData::FloatOption(if i == 1 { Some(bits) } else { None }));
    }
    let m = NewMetric::from_input_data(inputs).unwrap();
    assert_eq!(m.gut_circum, Some(bits));
    assert_eq!(m.body_fat, None);
    let g = NewGroceryItem::from_input_data(vec![
        InputData::Int(3),
        InputData::Text("Milk".to_string()),
        InputData::FloatOption(Some(bits)),
        InputData::TextOption(Some("l".to_string())),
    ]);
    assert_eq!(
        g,
        Ok(NewGroceryItem { trip_id: 3, name: "Milk".to_string(), amount: Some(bits), measure: Some("l".to_string()) })
    );
    let wrong = NewGroceryItem::from_input_data(vec![InputData::Text("Milk".to_string())]);
    assert_eq!(wrong, Err(PageError::Developer));
}

#[test]
fn input_texts_read_back_through_the_fields() {
    for d in [date(2021, 1, 5), date(-1, 12, 31), date(12345, 6, 7), date(33, 2, 3)] {
        assert_eq!(InputType::Date.to_data(&d.input_text(), None), Ok(InputData::Date(d)));
    }
}
