//! GNSS constellations, as the navigation filters name them.
use vstd::prelude::*;

verus! {

/// Describes all known GNSS constellations and augmentation services.
#[derive(Debug, Clone, Copy, PartialEq, Eq, Structural, Hash)]
pub enum Constellation {
    /// American constellation
    GPS,
    /// Russian constellation
    Glonass,
    /// Chinese constellation
    BeiDou,
    /// Japanese constellation
    QZSS,
    /// European constellation
    Galileo,
    /// Indian constellation
    IRNSS,
    /// American geostationary service
    WAAS,
    /// European geostationary service
    EGNOS,
    /// Japanese MTSAT geostationary service
    MSAS,
    /// Indian geostationary service
    GAGAN,
    /// Chinese geostationary service
    BDSBAS,
    /// South Korean geostationary service
    KASS,
    /// Russian geostationary service
    SDCM,
    /// South African geostationary service
    ASBAS,
    /// Australian and New-Zealand geostationary service
    SPAN,
    /// Geostationary satellites of no known service
    SBAS,
    /// Australia and New-Zealand geoscience service
    AusNZ,
    /// UK geostationary service
    GBAS,
    /// Nigerian geostationary service
    NSAS,
    /// Algerian geostationary service
    ASAL,
    /// Combination of several constellations
    Mixed,
}

/// Augmentation services: every constellation but the six global or regional
/// navigation systems and the mixed combination.
pub open spec fn is_sbas_spec(c: Constellation) -> bool {
    !(c == Constellation::GPS || c == Constellation::Glonass || c == Constellation::BeiDou
        || c == Constellation::QZSS || c == Constellation::Galileo || c == Constellation::IRNSS
        || c == Constellation::Mixed)
}

/// The constellations, in the order of their declaration.
pub open spec fn constellation_at(i: int) -> Constellation {
    if i == 0 { Constellation::GPS }
    else if i == 1 { Constellation::Glonass }
    else if i == 2 { Constellation::BeiDou }
    else if i == 3 { Constellation::QZSS }
    else if i == 4 { Constellation::Galileo }
    else if i == 5 { Constellation::IRNSS }
    else if i == 6 { Constellation::WAAS }
    else if i == 7 { Constellation::EGNOS }
    else if i == 8 { Constellation::MSAS }
    else if i == 9 { Constellation::GAGAN }
    else if i == 10 { Constellation::BDSBAS }
    else if i == 11 { Constellation::KASS }
    else if i == 12 { Constellation::SDCM }
    else if i == 13 { Constellation::ASBAS }
    else if i == 14 { Constellation::SPAN }
    else if i == 15 { Constellation::SBAS }
    else if i == 16 { Constellation::AusNZ }
    else if i == 17 { Constellation::GBAS }
    else if i == 18 { Constellation::NSAS }
    else if i == 19 { Constellation::ASAL }
    else { Constellation::Mixed }
}

impl Constellation {
    /// The constellation declared at position `i`.
    pub fn from_index(i: u8) -> (c: Self)
        requires
            i < 21,
        ensures
            c == constellation_at(i as int),
    {
        if i == 0 { Constellation::GPS }
        else if i == 1 { Constellation::Glonass }
        else if i == 2 { Constellation::BeiDou }
        else if i == 3 { Constellation::QZSS }
        else if i == 4 { Constellation::Galileo }
        else if i == 5 { Constellation::IRNSS }
        else if i == 6 { Constellation::WAAS }
        else if i == 7 { Constellation::EGNOS }
        else if i == 8 { Constellation::MSAS }
        else if i == 9 { Constellation::GAGAN }
        else if i == 10 { Constellation::BDSBAS }
        else if i == 11 { Constellation::KASS }
        else if i == 12 { Constellation::SDCM }
        else if i == 13 { Constellation::ASBAS }
        else if i == 14 { Constellation::SPAN }
        else if i == 15 { Constellation::SBAS }
        else if i == 16 { Constellation::AusNZ }
        else if i == 17 { Constellation::GBAS }
        else if i == 18 { Constellation::NSAS }
        else if i == 19 { Constellation::ASAL }
        else { Constellation::Mixed }
    }

    /// The position of this constellation in the declaration.
    pub fn index(&self) -> (i: u8)
        ensures
            i < 21,
            constellation_at(i as int) == *self,
    {
        match self {
            Constellation::GPS => 0,
            Constellation::Glonass => 1,
            Constellation::BeiDou => 2,
            Constellation::QZSS => 3,
            Constellation::Galileo => 4,
            Constellation::IRNSS => 5,
            Constellation::WAAS => 6,
            Constellation::EGNOS => 7,
            Constellation::MSAS => 8,
            Constellation::GAGAN => 9,
            Constellation::BDSBAS => 10,
            Constellation::KASS => 11,
            Constellation::SDCM => 12,
            Constellation::ASBAS => 13,
            Constellation::SPAN => 14,
            Constellation::SBAS => 15,
            Constellation::AusNZ => 16,
            Constellation::GBAS => 17,
            Constellation::NSAS => 18,
            Constellation::ASAL => 19,
            Constellation::Mixed => 20,
        }
    }

    /// Returns true if this is an SBAS augmentation system.
    pub fn is_sbas(&self) -> (b: bool)
        ensures
            b == is_sbas_spec(*self),
    {
        !(*self == Constellation::GPS || *self == Constellation::Glonass || *self
            == Constellation::BeiDou || *self == Constellation::QZSS || *self
            == Constellation::Galileo || *self == Constellation::IRNSS || *self
            == Constellation::Mixed)
    }
}

} // verus!
