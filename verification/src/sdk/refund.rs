//! Refunds.

use vstd::prelude::*;
use crate::sdk::types::{Currency, Id, Metadata, Timestamp};

verus! {

/// A Stripe refund object
#[derive(Debug, Clone)]
pub struct Refund {
    /// Unique identifier for the object
    pub id: Id,
    /// String representing the object's type
    pub object: String,
    /// Amount, in the currency's smallest unit
    pub amount: i64,
    /// Balance transaction that describes the impact on your account balance
    pub balance_transaction: Option<Id>,
    /// ID of the charge that was refunded
    pub charge: Option<Id>,
    /// Time at which the object was created
    pub created: Timestamp,
    /// Three-letter ISO currency code
    pub currency: Currency,
    /// An arbitrary string attached to the object
    pub description: Option<String>,
    /// Set of key-value pairs attached to the object
    pub metadata: Metadata,
    /// ID of the PaymentIntent that was refunded
    pub payment_intent: Option<Id>,
    /// Reason for the refund
    pub reason: Option<RefundReason>,
    /// Status of the refund
    pub status: RefundStatus,
}

/// The reason for a refund
#[derive(Debug, Clone, PartialEq, Eq)]
pub enum RefundReason {
    /// The customer requested the refund
    RequestedByCustomer,
    /// The refund is due to a duplicate charge
    Duplicate,
    /// The refund is due to fraudulent activity
    Fraudulent,
    /// Other reason for the refund
    Other,
}

/// The status of a refund
#[derive(Debug, Clone, PartialEq, Eq)]
pub enum RefundStatus {
    /// The refund is pending
    Pending,
    /// The refund has been successfully processed
    Succeeded,
    /// The refund was declined by the payment processor
    Failed,
    /// The refund has been canceled
    Canceled,
    /// Other refund status
    Other,
}

/// Parameters for creating a new refund
#[derive(Debug, Default, Clone)]
pub struct CreateRefund {
    /// ID of the charge to refund
    pub charge: Option<String>,
    /// ID of the PaymentIntent to refund
    pub payment_intent: Option<String>,
    /// A positive integer representing how much to refund
    pub amount: Option<i64>,
    /// An arbitrary string attached to the object
    pub description: Option<String>,
    /// Set of key-value pairs attached to the object
    pub metadata: Option<Metadata>,
    /// String indicating the reason for the refund
    pub reason: Option<RefundReason>,
    /// Boolean indicating whether the application fee should be refunded
    pub refund_application_fee: Option<bool>,
    /// Boolean indicating whether the transfer should be reversed
    pub reverse_transfer: Option<bool>,
}

} // verus!
