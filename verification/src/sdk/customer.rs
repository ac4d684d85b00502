//! Customers.

use vstd::prelude::*;
use crate::sdk::types::{Currency, Id, Metadata, Timestamp};

verus! {

/// An address associated with a customer
#[derive(Debug, Clone, Default)]
pub struct Address {
    /// City, district, suburb, town, or village
    pub city: Option<String>,
    /// Two-letter country code
    pub country: Option<String>,
    /// Address line 1
    pub line1: Option<String>,
    /// Address line 2
    pub line2: Option<String>,
    /// ZIP or postal code
    pub postal_code: Option<String>,
    /// State, county, province, or region
    pub state: Option<String>,
}

/// Customer's invoice settings
#[derive(Debug, Clone, Default)]
pub struct InvoiceSettings {
    /// ID of the default payment method used for subscriptions and invoices for the customer
    pub default_payment_method: Option<Id>,
    /// Default footer to be displayed on invoices for this customer
    pub footer: Option<String>,
    /// Default custom fields to be displayed on invoices for this customer
    pub custom_fields: Option<Vec<CustomField>>,
}

/// Custom field for invoice settings
#[derive(Debug, Clone)]
pub struct CustomField {
    /// The name of the custom field
    pub name: String,
    /// The value of the custom field
    pub value: String,
}

/// Shipping information
#[derive(Debug, Clone)]
pub struct ShippingInfo {
    /// Customer shipping address
    pub address: Address,
    /// Customer name
    pub name: String,
    /// Customer phone (including extension)
    pub phone: Option<String>,
}

/// Tax information
#[derive(Debug, Clone)]
pub struct TaxInfo {
    /// Tax ID type
    pub tax_id_type: String,
    /// Tax ID value
    pub tax_id_value: String,
    /// Verification status
    pub verification: Option<TaxIdVerification>,
}

/// Tax ID verification
#[derive(Debug, Clone)]
pub struct TaxIdVerification {
    /// Verification status
    pub status: String,
    /// Verification details
    pub verified_name: Option<String>,
    /// Verification failure reason
    pub verified_address: Option<String>,
}

/// Tax ID
#[derive(Debug, Clone)]
pub struct TaxId {
    /// Unique identifier for the object
    pub id: Id,
    /// String representing the object's type
    pub object: String,
    /// Two-letter ISO code representing the country of the tax ID
    pub country: String,
    /// Date when the tax ID was created
    pub created: Timestamp,
    /// ID of the customer
    pub customer: Id,
    /// Whether this object is deleted
    pub deleted: Option<bool>,
    /// Has the value true if the object exists in live mode
    pub livemode: bool,
    /// Type of the tax ID
    pub type_: String,
    /// Value of the tax ID
    pub value: String,
    /// Tax ID verification information
    pub verification: Option<TaxIdVerification>,
}

/// Tax exemption status
#[derive(Debug, Clone, PartialEq, Eq)]
pub enum TaxExemptStatus {
    /// Tax exempt
    Exempt,
    /// Not exempt
    NotExempt,
    /// Reverse charge
    Reverse,
}

/// Discount
#[derive(Debug, Clone)]
pub struct Discount {
    /// ID of the discount object
    pub id: Id,
    /// String representing the object's type
    pub object: String,
    /// ID of the coupon for this discount
    pub coupon: Id,
    /// Customer that this discount is for
    pub customer: Id,
    /// Date that the coupon was applied
    pub start: Timestamp,
    /// Date that the discount ends
    pub end: Option<Timestamp>,
    /// Subscription ID if this is a subscription discount
    pub subscription: Option<Id>,
    /// Invoice item ID if this is an invoice item discount
    pub invoice_item: Option<Id>,
    /// Invoice ID if this is an invoice discount
    pub invoice: Option<Id>,
}

/// Parameters for creating a new customer
#[derive(Debug, Default, Clone)]
pub struct CreateCustomer {
    /// The customer's email address
    pub email: Option<String>,
    /// The customer's full name or business name
    pub name: Option<String>,
    /// The customer's phone number
    pub phone: Option<String>,
    /// An arbitrary string attached to the object
    pub description: Option<String>,
    /// The customer's address
    pub address: Option<Address>,
    /// Customer's preferred currency
    pub currency: Option<Currency>,
    /// Set of key-value pairs attached to the object
    pub metadata: Option<Metadata>,
    /// The ID of the payment method to attach to the customer
    pub payment_method: Option<String>,
    /// The customer's shipping information
    pub shipping: Option<ShippingInfo>,
    /// The customer's tax exemption status
    pub tax_exempt: Option<TaxExemptStatus>,
    /// The customer's tax ID information
    pub tax_id_data: Option<Vec<TaxIdData>>,
    /// Default invoice settings for this customer
    pub invoice_settings: Option<CustomerInvoiceSettings>,
    /// The customer's preferred locales
    pub preferred_locales: Option<Vec<String>>,
    /// A payment source to attach to the customer
    pub source: Option<String>,
    /// The customer's current balance
    pub balance: Option<i64>,
    /// ID of a promotion code to apply to the customer
    pub promotion_code: Option<String>,
    /// The customer's next invoice sequence
    pub next_invoice_sequence: Option<i64>,
    /// The coupon to apply to this customer
    pub coupon: Option<String>,
}

/// Tax ID data for customer creation or update
#[derive(Debug, Clone)]
pub struct TaxIdData {
    /// Type of the tax ID
    pub type_: String,
    /// Value of the tax ID
    pub value: String,
}

/// Customer invoice settings for creation or update
#[derive(Debug, Default, Clone)]
pub struct CustomerInvoiceSettings {
    /// ID of the default payment method for the customer
    pub default_payment_method: Option<String>,
    /// Default footer to be displayed on invoices for this customer
    pub footer: Option<String>,
    /// Default custom fields to be displayed on invoices for this customer
    pub custom_fields: Option<Vec<CustomField>>,
}

} // verus!
