//! Base Search: local search and analytics over imported spreadsheet tables.
//!
//! The library holds the verified core: text handling, the typed query model,
//! table-shape inference, header mapping and row reading for imported files,
//! the helpers that render and parse stored searches, and the search session
//! of the desktop interface (paging, reply matching, analytics requests, row
//! selection, and recent and saved searches).

pub mod text;
pub mod number;
pub mod schema;
pub mod search;
pub mod db_types;
pub mod header_map;
pub mod cells;
pub mod reader;
pub mod table;
pub mod stored_queries;
pub mod guided;
pub mod format;
pub mod export;
pub mod cli;
pub mod columns;
pub mod advanced;
pub mod duck_filter;
pub mod labels;
pub mod selection;
pub mod session;
pub mod history;
pub mod web_args;
pub mod content_hash;
