//! Transfer reversals.

use vstd::prelude::*;
use crate::sdk::types::Metadata;

verus! {

/// The set of parameters that can be used when doing transfer reversal.
#[derive(Clone, Debug, Default)]
pub struct CreateTransferReversal {
    pub amount: Option<u64>,
    pub description: Option<String>,
    pub metadata: Option<Metadata>,
    pub refund_application_fee: Option<bool>,
}

} // verus!
