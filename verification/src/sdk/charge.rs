//! Charges.

use vstd::prelude::*;
use crate::sdk::types::{Currency, Id, Metadata, Timestamp};

verus! {

/// A Stripe charge object
#[derive(Debug, Clone)]
pub struct Charge {
    /// Unique identifier for the object
    pub id: Id,
    /// String representing the object's type. Objects of the same type share the same value
    pub object: String,
    /// Amount charged (in the smallest currency unit)
    pub amount: u64,
    /// Amount in cents refunded
    pub amount_refunded: u64,
    /// ID of the balance transaction that describes the impact of this charge on your account balance
    pub balance_transaction: Option<Id>,
    /// Whether the charge has been captured or not
    pub captured: bool,
    /// Time at which the object was created
    pub created: Timestamp,
    /// Three-letter ISO currency code
    pub currency: Currency,
    /// ID of the customer this charge is for if one exists
    pub customer: Option<Id>,
    /// An arbitrary string attached to the object
    pub description: Option<String>,
    /// ID of the payment method used in this charge
    pub payment_method: Option<Id>,
    /// Whether the charge has been paid
    pub paid: bool,
    /// Message to explain a failed charge
    pub failure_message: Option<String>,
    /// Code explaining the reason for a charge failure
    pub failure_code: Option<String>,
    /// True if the charge was created without capturing, false otherwise
    pub livemode: bool,
    /// Set of key-value pairs attached to the object
    pub metadata: Metadata,
    /// ID of the invoice this charge is for if one exists
    pub invoice: Option<Id>,
    /// Current charge status
    pub status: ChargeStatus,
}

/// The status of a charge
#[derive(Debug, Clone, PartialEq, Eq)]
pub enum ChargeStatus {
    /// The payment has been completed successfully
    Succeeded,
    /// The payment was not captured
    Pending,
    /// The payment failed
    Failed,
}

/// Parameters for creating a new charge
#[derive(Debug, Clone)]
pub struct CreateCharge {
    /// Amount to charge (in the smallest currency unit)
    pub amount: u64,
    /// Three-letter ISO currency code
    pub currency: Currency,
    /// ID of the customer this charge is for if one exists
    pub customer: Option<String>,
    /// ID of the payment method to attach to this charge
    pub payment_method: Option<String>,
    /// Whether to immediately capture the charge
    pub capture: Option<bool>,
    /// An arbitrary string attached to the object
    pub description: Option<String>,
    /// Set of key-value pairs attached to the object
    pub metadata: Option<Metadata>,
    /// For non-card charges, you can use this value as the complete description
    pub statement_descriptor: Option<String>,
    /// An arbitrary string to be displayed on your customer's statement
    pub statement_descriptor_suffix: Option<String>,
    /// The email address to which this charge's receipt will be sent
    pub receipt_email: Option<String>,
}

/// Parameters for updating a charge
#[derive(Debug, Default, Clone)]
pub struct UpdateCharge {
    /// An arbitrary string attached to the object
    pub description: Option<String>,
    /// Set of key-value pairs attached to the object
    pub metadata: Option<Metadata>,
    /// The email address to which this charge's receipt will be sent
    pub receipt_email: Option<String>,
}

/// Parameters for capturing a charge
#[derive(Debug, Default, Clone)]
pub struct CaptureCharge {
    /// The amount to capture, which must be less than or equal to the original amount
    pub amount: Option<u64>,
    /// An application fee to apply to the payment
    pub application_fee_amount: Option<u64>,
    /// The email address to send this charge's receipt to
    pub receipt_email: Option<String>,
    /// An arbitrary string to be displayed on your customer's credit card statement
    pub statement_descriptor: Option<String>,
    /// Additional information to be displayed on your customer's credit card statement
    pub statement_descriptor_suffix: Option<String>,
}

} // verus!
