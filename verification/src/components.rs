//! The component registry: which files each Stripe resource component needs.
//!
//! A component name maps to a file set: an optional extension file for
//! hand-maintained code, and the generated files that hold the baseline
//! definitions. The name `all` is reserved: it asks for every component and
//! is never a key of the table.

use vstd::prelude::*;
use vstd::string::*;
use crate::order::{
    lemma_sorted_unique, lemma_strictly_sorted_unique, names_of, sort_names, strictly_sorted,
};
use crate::table::{lemma_component_names_sorted, lemma_table_well_formed};
use crate::text::{
    chars_of, find_char_from, lemma_first_char_contains, replace_char, replace_char_spec,
    same_text, string_of, trim_end_chars, trim_end_spec,
};

verus! {

/// The files that one component needs.
pub struct ComponentFiles {
    /// The hand-maintained file of the component, if it has one.
    pub extension_file: Option<String>,
    /// The generated files of the component, in the order in which they are
    /// written.
    pub generated_files: Vec<String>,
}

/// A file set as plain values.
pub struct ComponentFilesView {
    pub extension_file: Option<Seq<char>>,
    pub generated_files: Seq<Seq<char>>,
}

impl View for ComponentFiles {
    type V = ComponentFilesView;

    open spec fn view(&self) -> ComponentFilesView {
        ComponentFilesView {
            extension_file: match self.extension_file {
                Some(f) => Some(f@),
                None => None,
            },
            generated_files: names_of(self.generated_files@),
        }
    }
}

impl ComponentFilesView {
    /// Every file of the set: the extension file first, where there is one,
    /// then the generated files in their order.
    pub open spec fn all_files(self) -> Seq<Seq<char>> {
        match self.extension_file {
            Some(f) => seq![f] + self.generated_files,
            None => self.generated_files,
        }
    }

    /// The invariant of a file set: at least one generated file, no file
    /// name twice, and no path separator in a file name.
    pub open spec fn wf(self) -> bool {
        &&& self.generated_files.len() > 0
        &&& self.all_files().no_duplicates()
        &&& forall|i: int|
            0 <= i < self.all_files().len() ==> !has_path_separator(#[trigger] self.all_files()[i])
    }
}

impl ComponentFiles {
    /// Every file of the set: the extension file first, where there is one,
    /// then the generated files in their order.
    pub fn all_files(&self) -> (files: Vec<String>)
        ensures
            names_of(files@) == self@.all_files(),
    {
        let mut files: Vec<String> = Vec::new();
        match &self.extension_file {
            Some(f) => {
                files.push(f.clone());
            },
            None => {},
        }
        let ghost head = names_of(files@);
        let mut i: usize = 0;
        while i < self.generated_files.len()
            invariant
                i <= self.generated_files.len(),
                names_of(files@) == head + names_of(self.generated_files@).subrange(0, i as int),
            decreases self.generated_files.len() - i,
        {
            let ghost before = names_of(files@);
            files.push(self.generated_files[i].clone());
            proof {
                let generated = names_of(self.generated_files@);
                assert(names_of(files@) =~= before.push(generated[i as int]));
                assert(generated.subrange(0, i + 1) =~= generated.subrange(0, i as int).push(
                    generated[i as int],
                ));
            }
            i += 1;
        }
        proof {
            let generated = names_of(self.generated_files@);
            assert(generated.subrange(0, generated.len() as int) =~= generated);
            if self.extension_file is Some {
                assert(head =~= seq![self.extension_file->0@]);
            } else {
                assert(head =~= Seq::<Seq<char>>::empty());
                assert(head + generated =~= generated);
            }
        }
        files
    }

    /// Whether the file set meets its invariant: at least one generated
    /// file, no file name twice, and no path separator in a file name.
    pub fn is_well_formed(&self) -> (r: bool)
        ensures
            r == self@.wf(),
    {
        if self.generated_files.len() == 0 {
            return false;
        }
        let files = self.all_files();
        let ghost all = self@.all_files();
        let mut i: usize = 0;
        while i < files.len()
            invariant
                i <= files.len(),
                names_of(files@) == all,
                all == self@.all_files(),
                forall|a: int, b: int| 0 <= a < i && a < b < all.len() ==> all[a] != all[b],
                forall|a: int| 0 <= a < i ==> !has_path_separator(#[trigger] all[a]),
            decreases files.len() - i,
        {
            proof {
                assert(all[i as int] == files@[i as int]@);
            }
            let name = chars_of(files[i].as_str());
            if find_char_from(&name, '/', 0).is_some() || find_char_from(&name, '\\', 0).is_some() {
                proof {
                    lemma_first_char_contains(name@, '/');
                    lemma_first_char_contains(name@, '\\');
                    assert(has_path_separator(all[i as int]));
                }
                return false;
            }
            proof {
                lemma_first_char_contains(name@, '/');
                lemma_first_char_contains(name@, '\\');
            }
            let mut j: usize = i + 1;
            while j < files.len()
                invariant
                    i < j <= files.len(),
                    names_of(files@) == all,
                    all == self@.all_files(),
                    forall|b: int| i < b < j ==> all[i as int] != all[b],
                decreases files.len() - j,
            {
                proof {
                    assert(all[j as int] == files@[j as int]@);
                    assert(all[i as int] == files@[i as int]@);
                }
                if same_text(files[i].as_str(), files[j].as_str()) {
                    proof {
                        assert(all[i as int] == all[j as int]);
                        assert(!all.no_duplicates());
                    }
                    return false;
                }
                j += 1;
            }
            i += 1;
        }
        proof {
            assert(all.no_duplicates()) by {
                assert forall|a: int, b: int| 0 <= a < all.len() && 0 <= b < all.len() && a
                    != b implies all[a] != all[b] by {
                    if a < b {
                    } else {
                        assert(all[b] != all[a]);
                    }
                }
            }
        }
        true
    }

    /// A file set with the same files.
    pub fn duplicate(&self) -> (copy: ComponentFiles)
        ensures
            copy@ == self@,
    {
        let extension_file = match &self.extension_file {
            Some(f) => Some(f.clone()),
            None => None,
        };
        let mut generated_files: Vec<String> = Vec::new();
        let mut i: usize = 0;
        while i < self.generated_files.len()
            invariant
                i <= self.generated_files.len(),
                generated_files@.len() == i,
                forall|j: int| 0 <= j < i ==> generated_files@[j]@ == self.generated_files@[j]@,
            decreases self.generated_files.len() - i,
        {
            generated_files.push(self.generated_files[i].clone());
            i += 1;
        }
        let copy = ComponentFiles { extension_file, generated_files };
        proof {
            assert(copy@.generated_files =~= self@.generated_files);
        }
        copy
    }
}

/// The name holds `/` or `\\`.
pub open spec fn has_path_separator(name: Seq<char>) -> bool {
    name.contains('/') || name.contains('\\')
}

/// Why a component name could not be resolved.
#[derive(Debug, PartialEq, Eq, Clone, Copy)]
pub enum ComponentError {
    /// The name is no component of the table.
    UnknownComponent,
    /// The name is the reserved bulk operand, which stands for every
    /// component and has no file set of its own.
    InvalidBulkOperand,
}

/// The reserved name that asks for every component.
pub open spec fn bulk_operand() -> Seq<char> {
    "all"@
}

/// The names of the components of the table.
pub open spec fn component_names() -> Seq<Seq<char>> {
    seq![
        "account"@,
        "balance"@,
        "balance_transaction"@,
        "bank_account"@,
        "card"@,
        "charge"@,
        "checkout_session"@,
        "credit_note"@,
        "currency"@,
        "customer"@,
        "customer_balance_transaction"@,
        "invoice"@,
        "issuing_authorization"@,
        "issuing_card"@,
        "issuing_dispute"@,
        "issuing_merchant_data"@,
        "issuing_transaction"@,
        "line_item"@,
        "login_links"@,
        "order"@,
        "payment_intent"@,
        "payment_method"@,
        "payment_source"@,
        "payout"@,
        "price"@,
        "product"@,
        "promotion_code"@,
        "refund"@,
        "review"@,
        "setup_intent"@,
        "source"@,
        "subscription"@,
        "test_clock"@,
        "token"@,
        "transfer_reversal"@,
        "usage_record"@,
        "webhook_endpoint"@,
        "webhook_events"@,
    ]
}

/// The names that a request may carry: the components and the bulk operand.
pub open spec fn supported_names() -> Seq<Seq<char>> {
    component_names().push(bulk_operand())
}

/// `name` is a component of the table.
pub open spec fn is_component(name: Seq<char>) -> bool {
    component_names().contains(name)
}

/// The file set that the naming convention gives: `<name>_ext.rs` beside
/// `<name>.rs`.
pub open spec fn conventional_files(name: Seq<char>) -> ComponentFilesView {
    ComponentFilesView {
        extension_file: Some(name + "_ext.rs"@),
        generated_files: seq![name + ".rs"@],
    }
}

/// The generated files of the components that have more than the
/// conventional one; empty for the others.
pub open spec fn listed_generated_files(name: Seq<char>) -> Seq<Seq<char>> {
    if name == "account"@ {
        seq![
            "account.rs"@,
            "account_link.rs"@,
            "account_session.rs"@,
            "account_application_authorized.rs"@,
            "account_application_deauthorized.rs"@,
            "account_external_account_created.rs"@,
            "account_external_account_deleted.rs"@,
            "account_external_account_updated.rs"@,
            "account_updated.rs"@,
        ]
    } else if name == "balance"@ {
        seq![
            "balance.rs"@,
            "balance_amount_by_source_type.rs"@,
            "balance_available.rs"@,
        ]
    } else if name == "charge"@ {
        seq![
            "charge.rs"@,
            "charge_captured.rs"@,
            "charge_expired.rs"@,
            "charge_failed.rs"@,
            "charge_pending.rs"@,
            "charge_refunded.rs"@,
            "charge_succeeded.rs"@,
            "charge_updated.rs"@,
        ]
    } else if name == "checkout_session"@ {
        seq![
            "checkout_session.rs"@,
            "checkout_session_async_payment_failed.rs"@,
            "checkout_session_async_payment_succeeded.rs"@,
            "checkout_session_completed.rs"@,
            "checkout_session_expired.rs"@,
        ]
    } else if name == "customer"@ {
        seq![
            "customer.rs"@,
            "customer_created.rs"@,
            "customer_deleted.rs"@,
            "customer_updated.rs"@,
            "customer_discount_created.rs"@,
            "customer_discount_deleted.rs"@,
            "customer_discount_updated.rs"@,
            "customer_source_created.rs"@,
            "customer_source_deleted.rs"@,
            "customer_source_expiring.rs"@,
            "customer_source_updated.rs"@,
            "customer_subscription_created.rs"@,
            "customer_subscription_deleted.rs"@,
            "customer_subscription_updated.rs"@,
            "customer_tax_id_created.rs"@,
            "customer_tax_id_deleted.rs"@,
            "customer_tax_id_updated.rs"@,
        ]
    } else if name == "payment_intent"@ {
        seq![
            "payment_intent.rs"@,
            "payment_intent_amount_capturable_updated.rs"@,
            "payment_intent_canceled.rs"@,
            "payment_intent_created.rs"@,
            "payment_intent_partially_funded.rs"@,
            "payment_intent_payment_failed.rs"@,
            "payment_intent_processing.rs"@,
            "payment_intent_requires_action.rs"@,
            "payment_intent_succeeded.rs"@,
        ]
    } else if name == "payment_method"@ {
        seq![
            "payment_method.rs"@,
            "payment_method_attached.rs"@,
            "payment_method_automatically_updated.rs"@,
            "payment_method_detached.rs"@,
            "payment_method_updated.rs"@,
            "payment_method_card.rs"@,
            "payment_method_sepa_debit.rs"@,
        ]
    } else if name == "product"@ {
        seq![
            "product.rs"@,
            "product_created.rs"@,
            "product_deleted.rs"@,
            "product_updated.rs"@,
        ]
    } else {
        seq![]
    }
}

/// The file set of the component `name` in the table.
pub open spec fn component_files(name: Seq<char>) -> ComponentFilesView {
    if listed_generated_files(name).len() > 0 {
        ComponentFilesView {
            extension_file: Some(name + "_ext.rs"@),
            generated_files: listed_generated_files(name),
        }
    } else {
        conventional_files(name)
    }
}

/// What resolving `name` gives: the file set of a component, a distinct
/// error for the bulk operand, and an error for any other name.
pub open spec fn resolve_spec(name: Seq<char>) -> Result<ComponentFilesView, ComponentError> {
    if name == bulk_operand() {
        Err(ComponentError::InvalidBulkOperand)
    } else if is_component(name) {
        Ok(component_files(name))
    } else {
        Err(ComponentError::UnknownComponent)
    }
}

/// Registry completeness: every component that the listing names, that is
/// every name of the table, resolves to a file set with at least one
/// generated file; and the bulk operand is none of them.
pub proof fn lemma_listed_names_resolve(name: Seq<char>)
    requires
        is_component(name),
    ensures
        name != bulk_operand(),
        resolve_spec(name) is Ok,
        resolve_spec(name)->Ok_0.generated_files.len() >= 1,
        resolve_spec(name)->Ok_0.wf(),
{
    lemma_table_well_formed(name);
}

/// The bulk operand is accepted as a request and never resolves; a name
/// that is neither it nor a component is not accepted and does not resolve.
pub proof fn lemma_bulk_operand_is_no_component(name: Seq<char>)
    ensures
        supported_names().contains(bulk_operand()),
        resolve_spec(bulk_operand()) == Err::<ComponentFilesView, ComponentError>(
            ComponentError::InvalidBulkOperand,
        ),
        name != bulk_operand() && !is_component(name) ==> !supported_names().contains(name)
            && resolve_spec(name) == Err::<ComponentFilesView, ComponentError>(
            ComponentError::UnknownComponent,
        ),
        !is_component(bulk_operand()),
{
    if is_component(bulk_operand()) {
        lemma_table_well_formed(bulk_operand());
    }
    let s = supported_names();
    assert(s[s.len() - 1] == bulk_operand());
    if name != bulk_operand() && !is_component(name) {
        if s.contains(name) {
            let i = choose|i: int| 0 <= i < s.len() && s[i] == name;
            assert(component_names()[i] == name);
        }
    }
}

/// The names that a request may carry: every component of the table, in
/// the table's order, and last the bulk operand.
pub fn supported_components() -> (names: Vec<String>)
    ensures
        names_of(names@) == supported_names(),
{
    let mut names: Vec<String> = Vec::new();
    names.push(String::from_str("account"));
    names.push(String::from_str("balance"));
    names.push(String::from_str("balance_transaction"));
    names.push(String::from_str("bank_account"));
    names.push(String::from_str("card"));
    names.push(String::from_str("charge"));
    names.push(String::from_str("checkout_session"));
    names.push(String::from_str("credit_note"));
    names.push(String::from_str("currency"));
    names.push(String::from_str("customer"));
    names.push(String::from_str("customer_balance_transaction"));
    names.push(String::from_str("invoice"));
    names.push(String::from_str("issuing_authorization"));
    names.push(String::from_str("issuing_card"));
    names.push(String::from_str("issuing_dispute"));
    names.push(String::from_str("issuing_merchant_data"));
    names.push(String::from_str("issuing_transaction"));
    names.push(String::from_str("line_item"));
    names.push(String::from_str("login_links"));
    names.push(String::from_str("order"));
    names.push(String::from_str("payment_intent"));
    names.push(String::from_str("payment_method"));
    names.push(String::from_str("payment_source"));
    names.push(String::from_str("payout"));
    names.push(String::from_str("price"));
    names.push(String::from_str("product"));
    names.push(String::from_str("promotion_code"));
    names.push(String::from_str("refund"));
    names.push(String::from_str("review"));
    names.push(String::from_str("setup_intent"));
    names.push(String::from_str("source"));
    names.push(String::from_str("subscription"));
    names.push(String::from_str("test_clock"));
    names.push(String::from_str("token"));
    names.push(String::from_str("transfer_reversal"));
    names.push(String::from_str("usage_record"));
    names.push(String::from_str("webhook_endpoint"));
    names.push(String::from_str("webhook_events"));
    names.push(String::from_str("all"));
    proof {
        assert(names_of(names@) =~= supported_names());
    }
    names
}

/// The placeholder content of the extension file of `component`.
pub open spec fn extension_file_content(component: Seq<char>) -> Seq<char> {
    "//! Extension methods for the Stripe "@ + component
        + " resource\n\nuse crate::stripe::resources::generated::"@ + component
        + ";\n\n// Extension methods would be defined here\n"@
}

/// The name of the resource that the generated file `filename` holds.
pub open spec fn resource_name(filename: Seq<char>) -> Seq<char> {
    replace_char_spec(trim_end_spec(filename, ".rs"@), '_', ' ')
}

/// The placeholder content of the file of common resource types.
pub open spec fn resource_types_content() -> Seq<char> {
    "//! Common types used in Stripe API resources\n\n// Type definitions would be here\n"@
}

/// The content of the file that re-exports the generated definitions.
pub open spec fn resource_generated_content() -> Seq<char> {
    "//! Re-exports all generated resource definitions\n\npub use super::generated::*;\n"@
}

/// The placeholder content of the generated file `filename`.
pub open spec fn generated_file_content(filename: Seq<char>) -> Seq<char> {
    "//! Generated code for Stripe "@ + resource_name(filename)
        + " resource\n\n// Resource definition would be here\n"@
}

/// The generated files of the components that have more than the
/// conventional one; empty for the others.
fn listed_generated(component: &str) -> (files: Vec<String>)
    ensures
        names_of(files@) == listed_generated_files(component@),
{
    let mut files: Vec<String> = Vec::new();
    if same_text(component, "account") {
        files.push(String::from_str("account.rs"));
        files.push(String::from_str("account_link.rs"));
        files.push(String::from_str("account_session.rs"));
        files.push(String::from_str("account_application_authorized.rs"));
        files.push(String::from_str("account_application_deauthorized.rs"));
        files.push(String::from_str("account_external_account_created.rs"));
        files.push(String::from_str("account_external_account_deleted.rs"));
        files.push(String::from_str("account_external_account_updated.rs"));
        files.push(String::from_str("account_updated.rs"));
    } else if same_text(component, "balance") {
        files.push(String::from_str("balance.rs"));
        files.push(String::from_str("balance_amount_by_source_type.rs"));
        files.push(String::from_str("balance_available.rs"));
    } else if same_text(component, "charge") {
        files.push(String::from_str("charge.rs"));
        files.push(String::from_str("charge_captured.rs"));
        files.push(String::from_str("charge_expired.rs"));
        files.push(String::from_str("charge_failed.rs"));
        files.push(String::from_str("charge_pending.rs"));
        files.push(String::from_str("charge_refunded.rs"));
        files.push(String::from_str("charge_succeeded.rs"));
        files.push(String::from_str("charge_updated.rs"));
    } else if same_text(component, "checkout_session") {
        files.push(String::from_str("checkout_session.rs"));
        files.push(String::from_str("checkout_session_async_payment_failed.rs"));
        files.push(String::from_str("checkout_session_async_payment_succeeded.rs"));
        files.push(String::from_str("checkout_session_completed.rs"));
        files.push(String::from_str("checkout_session_expired.rs"));
    } else if same_text(component, "customer") {
        files.push(String::from_str("customer.rs"));
        files.push(String::from_str("customer_created.rs"));
        files.push(String::from_str("customer_deleted.rs"));
        files.push(String::from_str("customer_updated.rs"));
        files.push(String::from_str("customer_discount_created.rs"));
        files.push(String::from_str("customer_discount_deleted.rs"));
        files.push(String::from_str("customer_discount_updated.rs"));
        files.push(String::from_str("customer_source_created.rs"));
        files.push(String::from_str("customer_source_deleted.rs"));
        files.push(String::from_str("customer_source_expiring.rs"));
        files.push(String::from_str("customer_source_updated.rs"));
        files.push(String::from_str("customer_subscription_created.rs"));
        files.push(String::from_str("customer_subscription_deleted.rs"));
        files.push(String::from_str("customer_subscription_updated.rs"));
        files.push(String::from_str("customer_tax_id_created.rs"));
        files.push(String::from_str("customer_tax_id_deleted.rs"));
        files.push(String::from_str("customer_tax_id_updated.rs"));
    } else if same_text(component, "payment_intent") {
        files.push(String::from_str("payment_intent.rs"));
        files.push(String::from_str("payment_intent_amount_capturable_updated.rs"));
        files.push(String::from_str("payment_intent_canceled.rs"));
        files.push(String::from_str("payment_intent_created.rs"));
        files.push(String::from_str("payment_intent_partially_funded.rs"));
        files.push(String::from_str("payment_intent_payment_failed.rs"));
        files.push(String::from_str("payment_intent_processing.rs"));
        files.push(String::from_str("payment_intent_requires_action.rs"));
        files.push(String::from_str("payment_intent_succeeded.rs"));
    } else if same_text(component, "payment_method") {
        files.push(String::from_str("payment_method.rs"));
        files.push(String::from_str("payment_method_attached.rs"));
        files.push(String::from_str("payment_method_automatically_updated.rs"));
        files.push(String::from_str("payment_method_detached.rs"));
        files.push(String::from_str("payment_method_updated.rs"));
        files.push(String::from_str("payment_method_card.rs"));
        files.push(String::from_str("payment_method_sepa_debit.rs"));
    } else if same_text(component, "product") {
        files.push(String::from_str("product.rs"));
        files.push(String::from_str("product_created.rs"));
        files.push(String::from_str("product_deleted.rs"));
        files.push(String::from_str("product_updated.rs"));
    }
    proof {
        assert(names_of(files@) =~= listed_generated_files(component@));
    }
    files
}

/// Whether `component` may stand in a request: it is a component of the
/// table or the bulk operand.
pub fn is_valid_component(component: &str) -> (valid: bool)
    ensures
        valid == supported_names().contains(component@),
        valid == (is_component(component@) || component@ == bulk_operand()),
{
    let names = supported_components();
    proof {
        lemma_bulk_operand_is_no_component(component@);
        if is_component(component@) {
            let k = choose|k: int|
                0 <= k < component_names().len() && component_names()[k] == component@;
            assert(supported_names()[k] == component@);
        }
    }
    let mut i: usize = 0;
    while i < names.len()
        invariant
            i <= names.len(),
            names_of(names@) == supported_names(),
            forall|j: int| 0 <= j < i ==> supported_names()[j] != component@,
        decreases names.len() - i,
    {
        proof {
            assert(names_of(names@)[i as int] == names@[i as int]@);
        }
        if same_text(names[i].as_str(), component) {
            return true;
        }
        i += 1;
    }
    false
}

/// The file set of `component`.
///
/// Fails with `InvalidBulkOperand` for the bulk operand, which callers
/// handle before they resolve, and with `UnknownComponent` for a name that
/// is no component of the table.
pub fn get_component_file_mapping(component: &str) -> (r: Result<ComponentFiles, ComponentError>)
    ensures
        match r {
            Ok(files) => resolve_spec(component@) == Ok::<ComponentFilesView, ComponentError>(
                files@,
            ) && files@.wf() && files.extension_file is Some,
            Err(e) => resolve_spec(component@) == Err::<ComponentFilesView, ComponentError>(e),
        },
        r is Ok <==> is_component(component@),
        r == Err::<ComponentFiles, ComponentError>(ComponentError::InvalidBulkOperand)
            <==> component@ == bulk_operand(),
{
    proof {
        if is_component(component@) {
            lemma_table_well_formed(component@);
        }
    }
    if same_text(component, "all") {
        return Err(ComponentError::InvalidBulkOperand);
    }
    if !is_valid_component(component) {
        return Err(ComponentError::UnknownComponent);
    }
    let mut generated = listed_generated(component);
    if generated.len() == 0 {
        generated.push(String::from_str(component).concat(".rs"));
    }
    let extension = String::from_str(component).concat("_ext.rs");
    let files = ComponentFiles { extension_file: Some(extension), generated_files: generated };
    proof {
        assert(files@.generated_files =~= component_files(component@).generated_files);
        assert(files@ == component_files(component@));
        lemma_table_well_formed(component@);
    }
    Ok(files)
}

/// Every component of the table, without the bulk operand, in ascending
/// lexicographic order: the names of the table, which stand in that order.
pub fn get_all_component_templates() -> (names: Vec<String>)
    ensures
        names_of(names@) == component_names(),
        strictly_sorted(names_of(names@)),
        !names_of(names@).contains(bulk_operand()),
{
    let all = supported_components();
    let mut kept: Vec<String> = Vec::new();
    let mut i: usize = 0;
    proof {
        assert(names_of(all@).subrange(0, 0) =~= Seq::<Seq<char>>::empty());
        assert(names_of(kept@) =~= Seq::<Seq<char>>::empty());
        Seq::<Seq<char>>::empty().to_multiset_ensures();
    }
    while i < all.len()
        invariant
            i <= all.len(),
            names_of(all@) == supported_names(),
            forall|name: Seq<char>| #[trigger]
                names_of(kept@).to_multiset().count(name) == (if name == bulk_operand() {
                    0
                } else {
                    names_of(all@).subrange(0, i as int).to_multiset().count(name)
                }),
        decreases all.len() - i,
    {
        let ghost before = names_of(kept@);
        let ghost seen = names_of(all@).subrange(0, i as int);
        let name = all[i].clone();
        proof {
            assert(names_of(all@).subrange(0, i + 1) =~= seen.push(name@));
            vstd::seq_lib::to_multiset_build(seen, name@);
        }
        if !same_text(name.as_str(), "all") {
            kept.push(name);
            proof {
                assert(names_of(kept@) =~= before.push(name@));
                vstd::seq_lib::to_multiset_build(before, name@);
            }
        }
        i += 1;
    }
    let names = sort_names(kept);
    proof {
        let table = component_names();
        let listed = names_of(names@);
        assert(names_of(all@).subrange(0, all@.len() as int) =~= names_of(all@));
        lemma_bulk_operand_is_no_component(bulk_operand());
        lemma_component_names_sorted();
        table.to_multiset_ensures();
        vstd::seq_lib::to_multiset_build(table, bulk_operand());
        assert(listed.to_multiset() =~= table.to_multiset());
        if table.len() > 0 {
            lemma_strictly_sorted_unique(table, 0);
        }
        lemma_sorted_unique(listed, table);
    }
    names
}

/// The placeholder content of the extension file of `component`. It is
/// made for every component and every file name: the result is never an
/// error.
pub fn generate_extension_file(component: &str, filename: &str) -> (r: Result<
    String,
    ComponentError,
>)
    ensures
        r matches Ok(content) && content@ == extension_file_content(component@),
{
    let mut content = String::from_str("//! Extension methods for the Stripe ");
    content.append(component);
    content.append(" resource\n\nuse crate::stripe::resources::generated::");
    content.append(component);
    content.append(";\n\n// Extension methods would be defined here\n");
    Ok(content)
}

/// The placeholder content of the generated file `filename`: it names the
/// resource, which is the file name without `.rs` at its end and with a
/// blank for each underscore. It is made for every file name: the result is
/// never an error.
pub fn generate_generated_file(filename: &str) -> (r: Result<String, ComponentError>)
    ensures
        r matches Ok(content) && content@ == generated_file_content(filename@),
{
    let name = chars_of(filename);
    let suffix = chars_of(".rs");
    let stem = trim_end_chars(&name, &suffix);
    let resource = string_of(&replace_char(&stem, '_', ' '));
    let mut content = String::from_str("//! Generated code for Stripe ");
    content.append(resource.as_str());
    content.append(" resource\n\n// Resource definition would be here\n");
    Ok(content)
}

/// The placeholder content of the file of common resource types. The
/// result is never an error.
pub fn generate_resource_types_file() -> (r: Result<String, ComponentError>)
    ensures
        r matches Ok(content) && content@ == resource_types_content(),
{
    Ok(
        String::from_str(
            "//! Common types used in Stripe API resources\n\n// Type definitions would be here\n",
        ),
    )
}

/// The content of the file that re-exports the generated definitions. The
/// result is never an error.
pub fn generate_resource_generated_file() -> (r: Result<String, ComponentError>)
    ensures
        r matches Ok(content) && content@ == resource_generated_content(),
{
    Ok(
        String::from_str(
            "//! Re-exports all generated resource definitions\n\npub use super::generated::*;\n",
        ),
    )
}

} // verus!
