//! The history table: the actions shown, how they are filtered and searched,
//! and the selection state machine behind the screen.


pub mod table_view;
pub mod table;
pub mod processor;
pub mod filter_processor;
pub mod selection_processor;
pub mod screen;
