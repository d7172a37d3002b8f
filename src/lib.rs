//! Navigation state for a terminal front-end that picks a recipe file and an
//! optional add-on archive, hands them to an external converter, and shows
//! what the converter reported.

pub mod browser;
pub mod command;
pub mod controller;
pub mod focus;
pub mod selectable;
pub mod state;
