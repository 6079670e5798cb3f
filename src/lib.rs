//! Entity records with lifecycle fields, an activity log and optional
//! capability collections (addresses, e-mail addresses, metadata, notes,
//! phone numbers and tags), each with verified operations.

pub mod catalog;
pub mod countries;
pub mod country_table;
pub mod defaults;
pub mod entity;
pub mod errors;
pub mod keyed;
pub mod records;
