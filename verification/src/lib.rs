//! Aggregates per-map metadata files from a collection of map directories
//! into one report, rendered as a JSON array or as a flat CSV table.

pub mod json;
pub mod laws;
pub mod modes;
pub mod numfmt;
pub mod parse;
pub mod records;
pub mod report;
pub mod strutil;
pub mod writer;

pub use json::JsonValue;
pub use modes::AppModes;
pub use modes::OutputModes;
pub use parse::get_data_from_meta;
pub use parse::record_from_json;
pub use records::MapData;
pub use records::MapDataDifficulty;
pub use records::ParseError;
pub use report::add_to_list;
pub use report::aggregate;
pub use report::ScanItem;
pub use writer::csv_row_of;
pub use writer::json_from_record;
pub use writer::render_csv;
pub use writer::render_json;
pub use writer::CsvRowData;
