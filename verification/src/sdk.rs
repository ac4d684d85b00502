//! The data model of the Stripe SDK that the scaffold lays down: the types
//! that the templates define, the URLs of the client's requests and its
//! retry rules.

pub mod charge;
pub mod config;
pub mod customer;
pub mod error;
pub mod invoice;
pub mod params;
pub mod price;
pub mod refund;
pub mod request_strategy;
pub mod terminal_configuration;
pub mod transfer_reversal;
pub mod types;
pub mod urls;
