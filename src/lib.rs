pub mod text;
pub mod selection;
pub mod catalog;
pub mod input;
pub mod records;
pub mod state;
pub mod error;
pub mod names;
