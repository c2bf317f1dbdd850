//! Record linkage and aggregation engine for broadband regulatory filings.
//!
//! The crate joins a regulator-issued serviceable-location census against a
//! billing system's subscription export, classifies each linked subscription
//! through a plan-code taxonomy, and folds the linked pairs into the
//! per-tract and per-location summary tables that the filings require.
//!
//! - [`records`] holds the two input record shapes.
//! - [`text`] holds the character-level utilities the matcher builds on.
//! - [`linker`] joins subscriptions to locations, first match wins.
//! - [`products`] and [`taxonomy`] turn billing plan codes into service
//!   descriptors.
//! - [`tracts`] and [`locations`] fold linked pairs into the summary
//!   tables.
//! - [`statistics`] reduces the tract table into the reported rollups.

pub mod linker;
pub mod locations;
pub mod products;
pub mod records;
pub mod statistics;
pub mod taxonomy;
pub mod text;
pub mod tracts;
