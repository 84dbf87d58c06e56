//! The kinds of product a context gathers.
use vstd::prelude::*;

verus! {

/// A kind of GNSS product.
#[derive(Debug, Clone, Copy, PartialEq, Eq, Structural, Hash)]
pub enum ProductType {
    /// GNSS signal observations (Observation RINEX).
    Observation,
    /// Meteo sensors data (Meteo RINEX).
    MeteoObservation,
    /// Broadcast navigation messages (Navigation RINEX).
    BroadcastNavigation,
    /// High precision clock data (Clock RINEX).
    HighPrecisionClock,
    /// Antenna calibrations (ANTEX).
    ANTEX,
    /// High precision orbits (SP3).
    HighPrecisionOrbit,
}

/// The kind of RINEX file, as its header declares it.
#[derive(Debug, Clone, Copy, PartialEq, Eq, Structural)]
pub enum RinexType {
    /// Observation data.
    ObservationData,
    /// Navigation data.
    NavigationData,
    /// Meteorological data.
    MeteoData,
    /// Clock data.
    ClockData,
    /// Antenna data.
    AntennaData,
}

/// The product a RINEX of the given kind provides.
pub open spec fn rinex_product(t: RinexType) -> ProductType {
    match t {
        RinexType::ObservationData => ProductType::Observation,
        RinexType::NavigationData => ProductType::BroadcastNavigation,
        RinexType::MeteoData => ProductType::MeteoObservation,
        RinexType::ClockData => ProductType::HighPrecisionClock,
        RinexType::AntennaData => ProductType::ANTEX,
    }
}

impl ProductType {
    /// The product a RINEX of the given kind provides.
    pub fn from_rinex_type(t: RinexType) -> (p: Self)
        ensures
            p == rinex_product(t),
            p != ProductType::HighPrecisionOrbit,
    {
        match t {
            RinexType::ObservationData => ProductType::Observation,
            RinexType::NavigationData => ProductType::BroadcastNavigation,
            RinexType::MeteoData => ProductType::MeteoObservation,
            RinexType::ClockData => ProductType::HighPrecisionClock,
            RinexType::AntennaData => ProductType::ANTEX,
        }
    }
}

} // verus!
