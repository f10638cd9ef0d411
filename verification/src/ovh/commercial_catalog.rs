//! OVHcloud API v2 **commercialCatalog** types (`/v2/commercialCatalog`).
//!
//! Data types of these endpoints; field and value names follow the API,
//! with the JSON name noted where it differs.

use vstd::prelude::*;

verus! {

/// `commercialCatalog.BlobContentTechnicalConnectionClients`
#[derive(Debug, Clone)]
pub struct BlobContentTechnicalConnectionClients {
    pub concurrency: Option<i64>,
    pub number: Option<i64>,
}

/// `commercialCatalog.BlobContentTechnicalConnection`
#[derive(Debug, Clone)]
pub struct BlobContentTechnicalConnection {
    pub clients: Option<BlobContentTechnicalConnectionClients>,
    pub total: Option<i64>,
}

/// `commercialCatalog.BlobContentTechnicalNodes`
#[derive(Debug, Clone)]
pub struct BlobContentTechnicalNodes {
    pub number: Option<i64>,
}

/// `commercialCatalog.BlobContentTechnicalOS`
#[derive(Debug, Clone)]
pub struct BlobContentTechnicalOS {
    pub family: Option<String>,
}

/// `commercialCatalog.BlobContentTechnicalPerSeconds`
#[derive(Debug, Clone)]
pub struct BlobContentTechnicalPerSeconds {
    pub total: Option<i64>,
    pub unit: Option<String>,
}

/// `commercialCatalog.BlobContentTechnicalThroughput`
#[derive(Debug, Clone)]
pub struct BlobContentTechnicalThroughput {
    pub level: Option<i64>,
}

/// `commercialCatalog.BlobContentTechnicalVolumeCapacity`
#[derive(Debug, Clone)]
pub struct BlobContentTechnicalVolumeCapacity {
    pub max: Option<i64>,
}

/// `commercialCatalog.BlobContentTechnicalVolumeIops`
#[derive(Debug, Clone)]
pub struct BlobContentTechnicalVolumeIops {
    pub guaranteed: Option<bool>,
    pub level: Option<i64>,
    pub max: Option<i64>,
    pub max_unit: Option<String>,
    pub unit: Option<String>,
}

/// `commercialCatalog.BlobContentTechnicalVolume`
#[derive(Debug, Clone)]
pub struct BlobContentTechnicalVolume {
    pub capacity: Option<BlobContentTechnicalVolumeCapacity>,
    pub iops: Option<BlobContentTechnicalVolumeIops>,
}

/// `commercialCatalog.Catalog`
#[derive(Debug, Clone)]
pub struct Catalog {
    pub id: Option<i64>,
    pub name: Option<String>,
}

/// `common.LanguageEnum`
#[derive(Debug, Clone, Copy, PartialEq, Eq)]
pub enum CommonLanguage {
    /// `cs_CZ`
    CsCz,
    /// `de_DE`
    DeDe,
    /// `en_AS`
    EnAs,
    /// `en_AU`
    EnAu,
    /// `en_CA`
    EnCa,
    /// `en_GB`
    EnGb,
    /// `en_IE`
    EnIe,
    /// `en_IN`
    EnIn,
    /// `en_SG`
    EnSg,
    /// `en_US`
    EnUs,
    /// `en_WW`
    EnWw,
    /// `es_ES`
    EsEs,
    /// `es_SA`
    EsSa,
    /// `fi_FI`
    FiFi,
    /// `fr_CA`
    FrCa,
    /// `fr_FR`
    FrFr,
    /// `fr_MA`
    FrMa,
    /// `fr_SN`
    FrSn,
    /// `fr_TN`
    FrTn,
    /// `it_IT`
    ItIt,
    /// `lt_LT`
    LtLt,
    /// `nl_NL`
    NlNl,
    /// `pl_PL`
    PlPl,
    /// `pt_PT`
    PtPt,
    /// Any value not listed here.
    Other,
}

/// `commercialCatalog.Description`
#[derive(Debug, Clone)]
pub struct Description {
    pub language: Option<CommonLanguage>,
    pub long_label: Option<String>,
    pub short_label: Option<String>,
}

/// `commercialCatalog.CommercialProduct`
#[derive(Debug, Clone)]
pub struct CommercialProduct {
    pub code: Option<String>,
    pub descriptions: Option<Vec<Description>>,
}

/// `commercialCatalog.InvoiceLabel`
#[derive(Debug, Clone)]
pub struct InvoiceLabel {
    pub label: Option<String>,
    pub language: Option<CommonLanguage>,
}

/// `commercialCatalog.CurrencyCodeEnum`
#[derive(Debug, Clone, Copy, PartialEq, Eq)]
pub enum CommercialCatalogCurrencyCode {
    /// `AUD`
    Aud,
    /// `CAD`
    Cad,
    /// `CZK`
    Czk,
    /// `EUR`
    Eur,
    /// `GBP`
    Gbp,
    /// `INR`
    Inr,
    /// `LTL`
    Ltl,
    /// `MAD`
    Mad,
    /// `PLN`
    Pln,
    /// `SGD`
    Sgd,
    /// `TND`
    Tnd,
    /// `USD`
    Usd,
    /// `XOF`
    Xof,
    /// Any value not listed here.
    Other,
}

/// `commercialCatalog.Price`
#[derive(Debug, Clone)]
pub struct Price {
    pub amount: Option<i64>,
    pub currency_code: Option<CommercialCatalogCurrencyCode>,
}

/// `commercialCatalog.RatingValueTypeEnum`
#[derive(Debug, Clone, Copy, PartialEq, Eq)]
pub enum CommercialCatalogRatingValueType {
    /// `PRICE`
    Price,
    /// Any value not listed here.
    Other,
}

/// `commercialCatalog.RatingValue`
#[derive(Debug, Clone)]
pub struct RatingValue {
    pub prices: Option<Vec<Price>>,
    /// JSON field `type`.
    pub kind: Option<CommercialCatalogRatingValueType>,
}

/// `commercialCatalog.CommercialRatingValue`
#[derive(Debug, Clone)]
pub struct CommercialRatingValue {
    pub invoice_labels: Option<Vec<InvoiceLabel>>,
    pub rating_value: Option<RatingValue>,
}

/// `commercialCatalog.CompositeOfferCommercialOffer`
#[derive(Debug, Clone)]
pub struct CompositeOfferCommercialOffer {
    pub commercial_offer: Option<String>,
    pub max: Option<i64>,
    pub min: Option<i64>,
}

/// `commercialCatalog.MerchantEnum`
#[derive(Debug, Clone, Copy, PartialEq, Eq)]
pub enum CommercialCatalogMerchant {
    /// `ASIA`
    Asia,
    /// `AU`
    Au,
    /// `CA`
    Ca,
    /// `DE`
    De,
    /// `ES`
    Es,
    /// `FR`
    Fr,
    /// `GB`
    Gb,
    /// `IE`
    Ie,
    /// `IN`
    In,
    /// `IT`
    It,
    /// `MA`
    Ma,
    /// `NL`
    Nl,
    /// `PL`
    Pl,
    /// `PT`
    Pt,
    /// `QC`
    Qc,
    /// `SG`
    Sg,
    /// `SN`
    Sn,
    /// `TN`
    Tn,
    /// `US`
    Us,
    /// `WE`
    We,
    /// `WS`
    Ws,
    /// Any value not listed here.
    Other,
}

/// `commercialCatalog.OfferCommercialProduct`
#[derive(Debug, Clone)]
pub struct OfferCommercialProduct {
    pub commercial_product: Option<CommercialProduct>,
    pub max: Option<i64>,
    pub min: Option<i64>,
}

/// `commercialCatalog.OfferNatureEnum`
#[derive(Debug, Clone, Copy, PartialEq, Eq)]
pub enum CommercialCatalogOfferNature {
    /// `BILLING_PLAN`
    BillingPlan,
    /// `REGULAR`
    Regular,
    /// `STRUCTURAL`
    StructuralOffer,
    /// Any value not listed here.
    Other,
}

/// `commercialCatalog.OfferTypeEnum`
#[derive(Debug, Clone, Copy, PartialEq, Eq)]
pub enum CommercialCatalogOfferType {
    /// `ATOMIC`
    Atomic,
    /// `COMPOSITE`
    Composite,
    /// Any value not listed here.
    Other,
}

/// `commercialCatalog.TechnicalRequirement`
#[derive(Debug, Clone)]
pub struct TechnicalRequirement {
    pub default: Option<String>,
    pub name: Option<String>,
    pub values: Option<Vec<String>>,
}

/// `commercialCatalog.Validity`
#[derive(Debug, Clone)]
pub struct Validity {
    pub eol_date: Option<String>,
    pub eos_date: Option<String>,
    pub start_date: Option<String>,
}

/// `commercialCatalog.OfferStateEnum`
#[derive(Debug, Clone, Copy, PartialEq, Eq)]
pub enum CommercialCatalogOfferState {
    /// `ACTIVE`
    Active,
    /// `DEPRECATED`
    Deprecated,
    /// Any value not listed here.
    Other,
}

} // verus!
