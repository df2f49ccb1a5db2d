//! Logic of the Open Library dump importer.

pub mod download;
pub mod dump;
pub mod import;
pub mod import_laws;
pub mod json;
pub mod model;
pub mod number;
pub mod operation_laws;
pub mod outside;
pub mod record_laws;
pub mod row_laws;
pub mod scan;
pub mod schema;
pub mod slug;
pub mod slug_laws;
pub mod source_laws;
pub mod sql;
pub mod sql_laws;
pub mod statements;
pub mod text;
pub mod text_laws;
