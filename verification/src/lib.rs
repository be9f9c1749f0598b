//! Decision logic of a wallet dashboard.
//!
//! Every panel of the dashboard is computed here from plain values: what a
//! composed batch may do next, what a review states before a signature, what a
//! dapp's request would grant. Drawing the panels, reaching the network and
//! reading the clock are left to the program around the library.

pub mod calendar;
pub mod chain;
pub mod function_panel;
pub mod primitives;
pub mod sign_review;
pub mod text;
pub mod tx_builder;
pub mod txbuilder;
pub mod wc_panes;
