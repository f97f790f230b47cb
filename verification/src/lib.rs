//! Looks a word up on a bilingual dictionary page: builds the lookup address,
//! classifies the server's answer, pulls the translation candidates out of the
//! returned markup and lays them out as a primary translation with its
//! alternates.
//!
//! The stages, in the order a lookup passes them: [`address`], [`fetch`],
//! [`select`], [`extract`], [`scrape`], [`partition`], [`present`]; [`lookup`]
//! strings the stages after the fetch together, and [`error`] holds the
//! failures.

pub mod address;
pub mod error;
pub mod extract;
pub mod fetch;
pub mod lookup;
pub mod partition;
pub mod present;
pub mod scrape;
pub mod select;
