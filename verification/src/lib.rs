//! Scaffolding rules for a Stripe SDK generator: the component registry,
//! the module-declaration splicer and the decisions of the materialization
//! driver, each with a machine-checked contract.

pub mod add;
pub mod bulk;
pub mod components;
pub mod declarations;
pub mod init;
pub mod order;
pub mod registry;
pub mod sdk;
pub mod splicer;
pub mod table;
pub mod text;
