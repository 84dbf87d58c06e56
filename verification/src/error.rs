//! Error types definition
use vstd::prelude::*;

use rinex::prelude::ParsingError as RinexParsingError;
use sp3::prelude::Error as SP3Error;

verus! {

/// Why two datasets could not be merged.
#[derive(Debug, Clone, Copy, PartialEq, Eq, Structural)]
pub enum MergeError {
    /// Some file formats do not support merging.
    MergeNotSupported,
    /// Only two compatible files can be merged together.
    FileTypeMismatch,
    /// Both datasets must be expressed in the same timescale.
    TimescaleMismatch,
    /// Both datasets must be expressed in the same reference frame.
    ReferenceFrameMismatch,
    /// Both datasets must come from the same data provider.
    DataProviderMismatch,
    /// Both datasets must have the same dimensions.
    DimensionMismatch,
    /// Any other merge failure.
    Other,
}

/// Context Error
#[derive(Debug)]
pub enum Error {
    /// The file format is not supported.
    NonSupportedFileFormat,
    /// The file name could not be determined.
    FileNameDetermination,
    /// The context could not be extended.
    Merge(MergeError),
    /// Unknown or non supported product type.
    UnknownProductType,
    /// Invalid navigation filter.
    InvalidNavFilter,
    /// RINEX parsing error.
    RinexParsing(RinexParsingError),
    /// SP3 parsing error.
    SP3Parsing(SP3Error),
}

} // verus!
