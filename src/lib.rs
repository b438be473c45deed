//! Storage access layer for a single fixed-shape table of a column-family
//! database: session ownership, schema bootstrap statements, row mapping and
//! the result envelope handed to request-serving code.

pub mod cache;
pub mod dto;
pub mod entity;
pub mod errors;
pub mod model;
pub mod statement;
pub mod storage;
