//! Decoding of the formatted text reports written by Nastran-like
//! finite-element solvers into structured numeric tables.
//!
//! A report is read in one pass, line by line. [`parser::OnePassParser`]
//! finds the headers of the known blocks ([`blocks::types::BlockType`]),
//! hands the lines of each block to its decoder ([`blocks::decoders`]), and
//! keeps the finished blocks ([`blocks::FinalBlock`]) beside what it has to
//! say about the rest. Blocks that a page break split are merged afterwards
//! ([`merger`]), and finished blocks are turned into fixed-form records by
//! templates ([`csv`]).
//!
//! Lines are bytes, and every function is specified over the bytes of its
//! lines. Reals are kept as they are written, as exact decimals
//! ([`numbers::Decimal`]). Keys of rows and columns are plain values with a
//! total order ([`indexing`]).

pub mod blocks;
pub mod csv;
pub mod elements;
pub mod fields;
pub mod flavour;
pub mod indexing;
pub mod merger;
pub mod numbers;
pub mod parser;
pub mod text;
