//! Verified state and decision logic of the stock-forum terminal cockpit.
use vstd::prelude::*;

pub mod text;
pub mod domain;
pub mod editor;
pub mod memory;
pub mod layout;
pub mod screen;
pub mod workspace;
pub mod error;
pub mod terminal;
pub mod model;
pub mod event;
pub mod controller;
pub mod host;
pub mod theme;

verus! {

} // verus!
