//! Interaction engine of a keyboard-driven terminal viewer for tabular data.

pub mod action;
pub mod app;
pub mod args;
pub mod cells;
pub mod command;
pub mod context;
pub mod error;
pub mod frame;
pub mod fuzzy;
pub mod fwf;
pub mod history;
pub mod infer;
pub mod input;
pub mod keys;
pub mod number;
pub mod palette;
pub mod schema;
pub mod scroll;
pub mod tabs;
pub mod tabular;
pub mod text;
