//! OVHcloud API v2 **location** types (`/v2/location`).
//!
//! Data types of these endpoints; field and value names follow the API,
//! with the JSON name noted where it differs.

use vstd::prelude::*;

verus! {

/// `common.LanguageEnum`
#[derive(Debug, Clone, Copy, PartialEq, Eq)]
pub enum CommonLanguage {
    /// `cs_CZ`
    CsCz,
    /// `de_DE`
    DeDe,
    /// `en_AS`
    EnAs,
    /// `en_AU`
    EnAu,
    /// `en_CA`
    EnCa,
    /// `en_GB`
    EnGb,
    /// `en_IE`
    EnIe,
    /// `en_IN`
    EnIn,
    /// `en_SG`
    EnSg,
    /// `en_US`
    EnUs,
    /// `en_WW`
    EnWw,
    /// `es_ES`
    EsEs,
    /// `es_SA`
    EsSa,
    /// `fi_FI`
    FiFi,
    /// `fr_CA`
    FrCa,
    /// `fr_FR`
    FrFr,
    /// `fr_MA`
    FrMa,
    /// `fr_SN`
    FrSn,
    /// `fr_TN`
    FrTn,
    /// `it_IT`
    ItIt,
    /// `lt_LT`
    LtLt,
    /// `nl_NL`
    NlNl,
    /// `pl_PL`
    PlPl,
    /// `pt_PT`
    PtPt,
    /// Any value not listed here.
    Other,
}

/// `location.CardinalPointEnum`
#[derive(Debug, Clone, Copy, PartialEq, Eq)]
pub enum LocationCardinalPoint {
    /// `CENTRAL`
    Central,
    /// `EAST`
    East,
    /// `NORTH`
    North,
    /// `NORTHEAST`
    Northeast,
    /// `NORTHWEST`
    Northwest,
    /// `SOUTH`
    South,
    /// `SOUTHEAST`
    Southeast,
    /// `SOUTHWEST`
    Southwest,
    /// `WEST`
    West,
    /// Any value not listed here.
    Other,
}

/// `location.ServicesEnum`
#[derive(Debug, Clone, Copy, PartialEq, Eq)]
pub enum LocationServices {
    /// `OCC`
    Occ,
    /// `PEERING`
    Peering,
    /// Any value not listed here.
    Other,
}

/// `location.SpecificTypeEnum`
#[derive(Debug, Clone, Copy, PartialEq, Eq)]
pub enum LocationSpecificType {
    /// `BACKUP`
    Backup,
    /// `LZ`
    Lz,
    /// `SNC`
    Snc,
    /// `STANDARD`
    Standard,
    /// Any value not listed here.
    Other,
}

/// `location.TypeEnum`
#[derive(Debug, Clone, Copy, PartialEq, Eq)]
pub enum LocationType {
    /// `LOCAL-ZONE`
    LocalZone,
    /// `REGION-1-AZ`
    Region1Az,
    /// `REGION-3-AZ`
    Region3Az,
    /// Any value not listed here.
    Other,
}

} // verus!
