use diet_database::bowel::{Bowel, NewBowel};
use diet_database::calendar::{time_cell, Date, Time};
use diet_database::form::{InputData, InputType, PageError};
use diet_database::grocery_trip::{GroceryTrip, NewGroceryTrip};
use diet_database::store::{store_options, NewStore, Store};
use diet_database::table::{Row, TableType, Tabular};

fn date(y: i32, m: u32, d: u32) -> Date {
    Date::new(y, m, d).unwrap()
}

fn time(h: u32, m: u32) -> Time {
    Time::new(h, m, 0).unwrap()
}

#[test]
fn date_new_checks_the_calendar() {
    assert!(Date::new(2021, 2, 29).is_none());
    assert!(Date::new(2020, 2, 29).is_some());
    assert!(Date::new(1900, 2, 29).is_none());
    assert!(Date::new(2000, 2, 29).is_some());
    assert!(Date::new(2021, 4, 31).is_none());
    assert!(Date::new(2021, 13, 1).is_none());
    assert!(Date::new(2021, 0, 1).is_none());
    assert!(Time::new(24, 0, 0).is_none());
    assert!(Time::new(23, 59, 59).is_some());
}

#[test]
fn date_display_and_input_texts() {
    assert_eq!(date(2021, 1, 5).display_text(), "Jan 05 2021");
    assert_eq!(date(2020, 12, 31).display_text(), "Dec 31 2020");
    assert_eq!(date(987, 3, 9).display_text(), "Mar 09 0987");
    assert_eq!(date(2021, 1, 5).input_text(), "2021-01-05");
    assert_eq!(date(12345, 6, 7).input_text(), "+12345-06-07");
}

#[test]
fn time_display_and_input_texts() {
    assert_eq!(time(21, 5).display_text(), "9:05 PM");
    assert_eq!(time(0, 30).display_text(), "12:30 AM");
    assert_eq!(time(12, 0).display_text(), "12:00 PM");
    assert_eq!(time(9, 7).display_text(), "9:07 AM");
    assert_eq!(time(9, 7).input_text(), "09:07");
    assert_eq!(time_cell(None), "");
    assert_eq!(time_cell(Some(time(13, 45))), "1:45 PM");
}

#[test]
fn date_and_time_texts_read_back() {
    let d = date(2021, 3, 1);
    assert_eq!(InputType::Date.to_data(&d.input_text(), None), Ok(InputData::Date(d)));
    let t = time(7, 45);
    assert_eq!(InputType::Time.to_data(&t.input_text(), None), Ok(InputData::Time(t)));
    assert_eq!(InputType::TimeOption.to_data("7:45 AM", None), Ok(InputData::TimeOption(None)));
    assert!(InputType::Date.to_data("Mar 01 2021", None).is_err());
}

fn byte(s: &str) -> Option<i8> {
    match InputType::Range(1, 7).to_data(s, None) {
        Ok(InputData::Byte(b)) => Some(b),
        _ => None,
    }
}

fn optional_int(s: &str) -> Option<i32> {
    match InputType::IntOption.to_data(s, None) {
        Ok(InputData::IntOption(v)) => v,
        _ => panic!("an optional integer field never fails"),
    }
}

#[test]
fn integer_texts() {
    let b = |scale: i8| Bowel { id: -42, date: date(2021, 1, 1), time: None, scale };
    assert_eq!(b(127).cells()[2], "127");
    assert_eq!(b(-5).cells()[2], "-5");
    assert_eq!(b(0).input_values()[2], "0");
    assert_eq!(byte("-128"), Some(-128));
    assert_eq!(byte("128"), None);
    assert_eq!(byte("+5"), Some(5));
    assert_eq!(byte(""), None);
    assert_eq!(byte("-"), None);
    assert_eq!(byte(" 5"), None);
    assert_eq!(InputType::Range(1, 7).to_data("x", None), Err(PageError::Form("range".to_string())));
    assert_eq!(optional_int("007"), Some(7));
    assert_eq!(optional_int("2147483648"), None);
    assert_eq!(optional_int("-2147483648"), Some(i32::MIN));
    assert_eq!(optional_int("12a"), None);
}

#[test]
fn bowel_table() {
    let rows = vec![
        Bowel { id: 3, date: date(2021, 1, 5), time: Some(time(21, 5)), scale: 4 },
        Bowel { id: 4, date: date(2021, 1, 6), time: None, scale: -1 },
    ];
    assert_eq!(rows.headers(), vec!["Date", "Time", "Scale"]);
    assert_eq!(
        rows.matrix(),
        vec![vec!["Jan 05 2021", "9:05 PM", "4"], vec!["Jan 06 2021", "", "-1"]]
    );
    assert_eq!(rows[0].input_values(), vec!["2021-01-05", "21:05", "4"]);
    let empty: Vec<Bowel> = Vec::new();
    assert!(empty.matrix().is_empty());
    assert_eq!(empty.headers().len(), 3);
}

#[test]
fn store_table() {
    let rows = vec![Store { id: 1, name: "Market".to_string() }, Store { id: 2, name: "Corner".to_string() }];
    assert_eq!(rows.headers(), vec!["Name"]);
    assert_eq!(rows.matrix(), vec![vec!["Market"], vec!["Corner"]]);
    assert_eq!(rows[1].input_values(), vec!["Corner"]);
    assert_eq!(store_options(&rows), vec![(1, "Market".to_string()), (2, "Corner".to_string())]);
}

#[test]
fn grocery_trip_table() {
    let trip = GroceryTrip { id: 9, date: date(2021, 2, 14), time: Some(time(10, 0)), store_name: "Market".to_string() };
    assert_eq!(GroceryTrip::header_row(), vec!["Date", "Time", "Store"]);
    assert_eq!(trip.cells(), vec!["Feb 14 2021", "10:00 AM", "Market"]);
    assert_eq!(vec![trip.clone()].matrix(), vec![trip.cells()]);
    assert_eq!(trip.input_values(), vec!["2021-02-14", "10:00", ""]);
}

#[test]
fn table_type_names() {
    assert_eq!(TableType::GroceryTrip.snake_case(), "grocery_trip");
    assert_eq!(TableType::Bowel.snake_case(), "bowel");
    assert_eq!(TableType::GroceryItem.snake_case(), "grocery_item");
    assert_eq!(TableType::Store.name(), "Store");
}

#[test]
fn new_records_from_input_data() {
    let d = date(2020, 1, 1);
    let nb = NewBowel::from_input_data(vec![InputData::Date(d), InputData::TimeOption(None), InputData::Byte(5)]);
    assert_eq!(nb, Ok(NewBowel { date: d, time: None, scale: 5 }));
    let wrong = NewBowel::from_input_data(vec![InputData::Date(d), InputData::TimeOption(None)]);
    assert!(wrong.is_err());
    let trip = NewGroceryTrip::from_input_data(vec![InputData::Date(d), InputData::TimeOption(Some(time(8, 0))), InputData::Int(2)]);
    assert_eq!(trip, Ok(NewGroceryTrip { date: d, time: Some(time(8, 0)), store_id: 2 }));
    let store = NewStore::from_input_data(vec![InputData::Text("Market".to_string())]);
    assert_eq!(store, Ok(NewStore { name: "Market".to_string() }));
}
