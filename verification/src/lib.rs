//! Reconciliation and batch-command generation for chemical-occurrence records.
//!
//! The crate turns rows that pair a chemical with a taxon and a literature
//! reference into an idempotent QuickStatements batch: it decides, per record
//! and across a run, which entities must be created, which claims can be
//! stated now and which must wait for a later run, and renders the command
//! lines exactly as the batch-import tool expects them.

pub mod cache;
pub mod chemical_entity;
pub mod cli;
pub mod csv_handler;
pub mod enrichment;
pub mod error;
pub mod reference;
pub mod report;
pub mod taxon;
pub mod text;
pub mod wikidata;
