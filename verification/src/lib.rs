//! A catalog of movie records with unique names and valid release dates.
//!
//! The catalog assigns identifiers, rejects duplicate names and impossible
//! calendar dates, and resolves a record by its identifier for updates and
//! removals. Every operation either applies completely or leaves the catalog
//! as it was.
//!
//! - [`record`]: the records, the index entries, and their views;
//! - [`error`]: the refusals and their texts;
//! - [`date`]: the calendar rules;
//! - [`model`]: the catalog as a mathematical value, with the rule of each
//!   operation;
//! - [`laws`]: what follows from those rules;
//! - [`catalog`]: the executable catalog, specified against the model.

pub mod record;
pub mod error;
pub mod date;
pub mod model;
pub mod laws;
pub mod catalog;

pub use catalog::Flipper;
pub use error::CatalogError;
pub use record::{Filme, Genero, nomesEIds};
