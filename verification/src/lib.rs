//! A tabbed container: a row of selector buttons, one per tab, above the
//! content of the tab that is currently selected.
//!
//! The crate holds the part of the component that decides: which tab is
//! selected, and what a render shows for a given sequence of tabs. Rendering
//! is a pure function into a description of the container, its buttons and its
//! content region; the host framework turns that description into nodes and
//! feeds button activations back into the [`selection::Selection`].
#![allow(non_snake_case)]

pub mod decimal;
pub mod selection;
pub mod tab_select;
pub mod laws;
