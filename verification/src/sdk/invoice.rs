//! Invoice settings.

use vstd::prelude::*;

verus! {

/// How a checkout session renders its invoice.
#[derive(Clone, Debug, Default)]
pub struct InvoiceSettingCheckoutRenderingOptions {
    /// How line-item prices and amounts will be displayed with respect to tax on invoice PDFs.
    pub amount_tax_display: Option<String>,
}

} // verus!
