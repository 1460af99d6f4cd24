//! Synchronisation of a published sanctions list with a relational store.
//!
//! The library holds the decisions of a synchronisation run: how an imprecise
//! date interval is rendered, which writes bring one category of satellite
//! records in line with the document, how an aggregate entry and its change
//! flag evolve, how whole batches are finalised, and in which order the steps
//! of a run go. It also renders the names, aliases and export lines built
//! from the stored facts. Reading the document, talking to the database and
//! scheduling the work are left to the caller.

pub mod calendar;
pub mod text;
pub mod document;
pub mod period;
pub mod features;
pub mod names;
pub mod alias;
pub mod reconcile;
pub mod aggregate;
pub mod reference;
pub mod import;
pub mod driver;
pub mod config;
pub mod export;
pub mod fofdbof;
pub mod party;
