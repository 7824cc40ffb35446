//! A to-do list organised into named pages, as a state machine with a proved
//! contract for every operation.

pub mod app;
pub mod events;
pub mod laws;
pub mod model;
pub mod nav;
pub mod selection;
pub mod store;
pub mod text;
pub mod todo;
