//! GNSS quality control: a data context made of RINEX and SP3 products, with the
//! decisions that build and filter it and the text of its reports.
pub mod cfg;
pub mod context;
pub mod error;
mod external;
pub mod navigation;
pub mod product;
pub mod report;
pub mod text;
