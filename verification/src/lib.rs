//! Fresh postings from a job search: the address to ask, the postings that a
//! results page holds, those of the day, those not seen before, and the run
//! and the scheduler that put these together. Nothing here reads a file or
//! sends a request; the program around the library does.

pub mod config;
pub mod date;
pub mod error;
pub mod filters;
pub mod ident;
pub mod markup;
pub mod models;
pub mod numeral;
pub mod payload;
pub mod relative;
pub mod scheduler;
pub mod scraper;
pub mod service;
pub mod state;
pub mod storage;
pub mod text;
