//! Report contents and their HTML.
pub mod meteo;
pub mod sampling;
pub mod orbit;
pub mod sp3_report;

use vstd::prelude::*;

verus! {

/// Report errors
#[derive(Debug, Clone, Copy, PartialEq, Eq, Structural)]
pub enum Error {
    /// A meteo report needs a meteo header.
    MissingMeteoHeader,
}

} // verus!
