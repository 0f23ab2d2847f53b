pub mod paste;
pub mod ui;
