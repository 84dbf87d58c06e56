//! How constellations are displayed.
use vstd::prelude::*;

use super::Constellation;

verus! {

/// The full name of a constellation with its country code, as displayed.
pub open spec fn constellation_name(c: Constellation) -> Seq<char> {
    match c {
        Constellation::GPS => "GPS (US)"@,
        Constellation::Glonass => "Glonass (RU)"@,
        Constellation::BeiDou => "BeiDou (CH)"@,
        Constellation::QZSS => "QZSS (JP)"@,
        Constellation::Galileo => "Galileo (EU)"@,
        Constellation::IRNSS => "IRNSS (IN)"@,
        Constellation::WAAS => "WAAS (US)"@,
        Constellation::EGNOS => "EGNOS (EU)"@,
        Constellation::MSAS => "MSAS (JP)"@,
        Constellation::GAGAN => "GAGAN (IN)"@,
        Constellation::BDSBAS => "BDSBAS (CH)"@,
        Constellation::KASS => "KASS (KR)"@,
        Constellation::SDCM => "SDCM (RU)"@,
        Constellation::ASBAS => "ASBAS (SA)"@,
        Constellation::SPAN => "SPAN (AUS)"@,
        Constellation::SBAS => "SBAS"@,
        Constellation::AusNZ => "AUS/NZ (AUS)"@,
        Constellation::GBAS => "GBAS (UK)"@,
        Constellation::NSAS => "NSAS (NI)"@,
        Constellation::ASAL => "ASAL (AL)"@,
        Constellation::Mixed => "MIXED"@,
    }
}

impl Constellation {
    /// The full name of this constellation with its country code, as displayed.
    pub fn to_string(&self) -> (s: String)
        ensures
            s@ == constellation_name(*self),
    {
        match self {
            Constellation::GPS => String::from_str("GPS (US)"),
            Constellation::Glonass => String::from_str("Glonass (RU)"),
            Constellation::BeiDou => String::from_str("BeiDou (CH)"),
            Constellation::QZSS => String::from_str("QZSS (JP)"),
            Constellation::Galileo => String::from_str("Galileo (EU)"),
            Constellation::IRNSS => String::from_str("IRNSS (IN)"),
            Constellation::WAAS => String::from_str("WAAS (US)"),
            Constellation::EGNOS => String::from_str("EGNOS (EU)"),
            Constellation::MSAS => String::from_str("MSAS (JP)"),
            Constellation::GAGAN => String::from_str("GAGAN (IN)"),
            Constellation::BDSBAS => String::from_str("BDSBAS (CH)"),
            Constellation::KASS => String::from_str("KASS (KR)"),
            Constellation::SDCM => String::from_str("SDCM (RU)"),
            Constellation::ASBAS => String::from_str("ASBAS (SA)"),
            Constellation::SPAN => String::from_str("SPAN (AUS)"),
            Constellation::SBAS => String::from_str("SBAS"),
            Constellation::AusNZ => String::from_str("AUS/NZ (AUS)"),
            Constellation::GBAS => String::from_str("GBAS (UK)"),
            Constellation::NSAS => String::from_str("NSAS (NI)"),
            Constellation::ASAL => String::from_str("ASAL (AL)"),
            Constellation::Mixed => String::from_str("MIXED"),
        }
    }
}

} // verus!
