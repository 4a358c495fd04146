//! Core of a PostgreSQL client: decoding of driver-reported column values
//! into a closed value model, column-major assembly of query results,
//! fixed-size pagination, the execution status state machine, tabular
//! export shaping, and the client's plain data types.
pub mod columnar;
pub mod decode;
pub mod execution;
pub mod export;
pub mod paging;
pub mod structs;
pub mod translates;
pub mod text;
pub mod urls;
pub mod values;
