//! Prices.

use vstd::prelude::*;
use crate::sdk::types::{Currency, Id, Metadata, Timestamp};

verus! {

/// A Stripe price object
#[derive(Debug, Clone)]
pub struct Price {
    /// Unique identifier for the object
    pub id: Id,
    /// String representing the object's type
    pub object: String,
    /// Whether the price can be used for new purchases
    pub active: bool,
    /// Three-letter ISO currency code
    pub currency: Currency,
    /// One of `one_time` or `recurring` depending on whether the price is for a one-time purchase or a recurring (subscription) purchase
    pub type_: PriceType,
    /// The unit amount in the currency's smallest unit
    pub unit_amount: Option<i64>,
    /// The unit amount as a formatted string
    pub unit_amount_decimal: Option<String>,
    /// Time at which the object was created
    pub created: Timestamp,
    /// Has the value true if the object exists in live mode or the value false if the object exists in test mode
    pub livemode: bool,
    /// A lookup key used to retrieve prices dynamically
    pub lookup_key: Option<String>,
    /// Set of key-value pairs attached to the object
    pub metadata: Metadata,
    /// A brief description of the price
    pub nickname: Option<String>,
    /// The ID of the product this price is associated with
    pub product: Id,
    /// The recurring components of a price such as `interval` and `usage_type`
    pub recurring: Option<Recurring>,
    /// Specifies whether the price is considered inclusive of taxes or exclusive of taxes.
    pub tax_behavior: Option<TaxBehavior>,
    /// Each element represents a pricing tier
    pub tiers: Option<Vec<PriceTier>>,
    /// Defines if the tiering price should be calculated as a flat amount or percentages of the total price
    pub tiers_mode: Option<TiersMode>,
    /// The transformation method to use for the tiered pricing
    pub transform_quantity: Option<TransformQuantity>,
}

/// The type of price
#[derive(Debug, Clone, PartialEq, Eq)]
pub enum PriceType {
    /// A one-time price
    OneTime,
    /// A recurring price
    Recurring,
}

/// The recurring components of a price such as `interval` and `usage_type`
#[derive(Debug, Clone)]
pub struct Recurring {
    /// Specifies billing frequency
    pub interval: PriceInterval,
    /// The number of intervals between subscription billings
    pub interval_count: u32,
    /// Configures how the quantity per period should be determined
    pub usage_type: UsageType,
    /// Default number of trial days when subscribing a customer to this price
    pub trial_period_days: Option<u32>,
    /// Configures if the price is metered or not
    pub aggregate_usage: Option<AggregateUsage>,
}

/// Specifies billing frequency
#[derive(Debug, Clone, PartialEq, Eq)]
pub enum PriceInterval {
    /// Daily billing
    Day,
    /// Weekly billing
    Week,
    /// Monthly billing
    Month,
    /// Yearly billing
    Year,
}

/// Configures how the quantity per period should be determined
#[derive(Debug, Clone, PartialEq, Eq)]
pub enum UsageType {
    /// Licensed pricing model
    Licensed,
    /// Metered pricing model
    Metered,
}

/// Configures if the price is metered or not
#[derive(Debug, Clone, PartialEq, Eq)]
pub enum AggregateUsage {
    /// Summing up all usage during a period
    Sum,
    /// Using the last usage record during a period
    LastDuring,
    /// Using the last usage record ever
    LastEver,
    /// Using the maximum usage during a period
    Max,
}

/// Specifies whether the price is considered inclusive of taxes or exclusive of taxes
#[derive(Debug, Clone, PartialEq, Eq)]
pub enum TaxBehavior {
    /// Price doesn't include tax
    Exclusive,
    /// Price includes tax
    Inclusive,
    /// Price isn't taxed
    Unspecified,
}

/// Pricing tier
#[derive(Debug, Clone)]
pub struct PriceTier {
    /// Price for the tier
    pub unit_amount: i64,
    /// Upper bound of this tier
    pub up_to: Option<i64>,
    /// Same as unit_amount, but with decimals
    pub unit_amount_decimal: Option<String>,
    /// Per unit billing amount for the tier
    pub flat_amount: Option<i64>,
    /// Same as flat_amount, but with decimals
    pub flat_amount_decimal: Option<String>,
}

/// Defines if the tiering price should be calculated as a flat amount or percentages of the total price
#[derive(Debug, Clone, PartialEq, Eq)]
pub enum TiersMode {
    /// Apply tier pricing to the total quantity
    Graduated,
    /// Apply tier pricing independently per group of quantities
    Volume,
}

/// The transformation method to use for the tiered pricing
#[derive(Debug, Clone)]
pub struct TransformQuantity {
    /// Divide quantity by this number
    pub divide_by: i64,
    /// After division, either round the result up or down
    pub round: RoundingMode,
}

/// Rounding mode for transform quantity
#[derive(Debug, Clone, PartialEq, Eq)]
pub enum RoundingMode {
    /// Round up to the nearest integer
    Up,
    /// Round down to the nearest integer
    Down,
}

/// Parameters for creating a new price
#[derive(Debug, Clone)]
pub struct CreatePrice {
    /// Three-letter ISO currency code
    pub currency: Currency,
    /// The ID of the product that this price will belong to
    pub product: String,
    /// A positive integer in the currency's smallest unit representing how much to charge
    pub unit_amount: Option<i64>,
    /// Same as unit_amount, but accepts a decimal string with at most 12 decimal places
    pub unit_amount_decimal: Option<String>,
    /// Whether the price is currently active
    pub active: Option<bool>,
    /// A brief description of the price
    pub nickname: Option<String>,
    /// The recurring components of a price
    pub recurring: Option<Recurring>,
    /// Set of key-value pairs attached to the object
    pub metadata: Option<Metadata>,
    /// Specifies whether the price is considered inclusive of taxes or exclusive of taxes
    pub tax_behavior: Option<TaxBehavior>,
    /// Each element represents a pricing tier
    pub tiers: Option<Vec<PriceTier>>,
    /// Defines if the tiering price should be calculated as a flat amount or percentages of the total price
    pub tiers_mode: Option<TiersMode>,
    /// A lookup key used to retrieve prices dynamically
    pub lookup_key: Option<String>,
    /// The transformation method to use for the tiered pricing
    pub transform_quantity: Option<TransformQuantity>,
}

/// Parameters for updating a price
#[derive(Debug, Default, Clone)]
pub struct UpdatePrice {
    /// Whether the price is currently active
    pub active: Option<bool>,
    /// A brief description of the price
    pub nickname: Option<String>,
    /// Set of key-value pairs attached to the object
    pub metadata: Option<Metadata>,
    /// A lookup key used to retrieve prices dynamically
    pub lookup_key: Option<String>,
    /// The transformation method to use for the tiered pricing
    pub transform_quantity: Option<TransformQuantity>,
    /// Specifies whether the price is considered inclusive of taxes or exclusive of taxes
    pub tax_behavior: Option<TaxBehavior>,
}

} // verus!
