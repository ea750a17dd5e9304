//! Builds a relational database from CSV extracts: renders the DDL of each
//! table from a template, creates the table, and loads its rows, lookup tables
//! before the primary tables that refer to them.

pub mod database;
pub mod error;
pub mod fields;
pub mod init;
pub mod loader;
pub mod newdb;
pub mod records;
pub mod schema;
pub mod template;
