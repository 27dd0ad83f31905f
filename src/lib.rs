//! Records of a personal diet and health log, with the logic around them:
//! calendar values, the text of table cells, typed form fields and their
//! coercion, the listing rules of the store, and the page state machine of
//! the client.

pub mod calendar;
pub mod digits;
pub mod table;
pub mod store;
pub mod bowel;
pub mod grocery_trip;
pub mod form;
pub mod listing;
pub mod resource;
pub mod page;
pub mod measures;
