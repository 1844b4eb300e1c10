//! Fixed-form delimited records made from decoded tables.

pub mod from_f06;
pub mod layout;
