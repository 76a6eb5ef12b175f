//! What the pages show, as plain values: table cells, headers and messages.

pub mod button;
pub mod message;
pub mod navigation;
pub mod stock_table;
pub mod table;
