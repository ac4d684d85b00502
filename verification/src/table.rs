//! The built-in table meets the invariants of the registry: no component
//! is named like the bulk operand, and every file set has a generated file,
//! no file name twice and no path separator in a file name.

use vstd::prelude::*;
use crate::components::{
    bulk_operand, component_files, component_names, conventional_files, has_path_separator,
    is_component, listed_generated_files,
};
use crate::order::{lemma_ascending_neighbours, lex_lt, parts_below_at, strictly_sorted};

verus! {

/// A name with a suffix holds a path separator only where one of the two
/// does.
proof fn lemma_separator_in_parts(name: Seq<char>, suffix: Seq<char>)
    requires
        !has_path_separator(name),
        !has_path_separator(suffix),
    ensures
        !has_path_separator(name + suffix),
{
    let whole = name + suffix;
    assert forall|c: char| whole.contains(c) implies name.contains(c) || suffix.contains(c) by {
        let i = choose|i: int| 0 <= i < whole.len() && whole[i] == c;
        if i < name.len() {
            assert(name[i] == c);
        } else {
            assert(suffix[i - name.len()] == c);
        }
    }
}

/// The two suffixes of the naming convention hold no path separator and
/// differ in length.
proof fn lemma_suffixes_plain()
    ensures
        !has_path_separator("_ext.rs"@),
        !has_path_separator(".rs"@),
        "_ext.rs"@.len() == 7,
        ".rs"@.len() == 3,
{
    reveal_strlit("_ext.rs");
    reveal_strlit(".rs");
}

/// The file set that the naming convention gives for a name without path
/// separators meets the invariant of file sets.
pub proof fn lemma_conventional_files_wf(name: Seq<char>)
    requires
        !has_path_separator(name),
    ensures
        conventional_files(name).wf(),
{
    lemma_suffixes_plain();
    lemma_separator_in_parts(name, "_ext.rs"@);
    lemma_separator_in_parts(name, ".rs"@);
    let all = conventional_files(name).all_files();
    assert(all =~= seq![name + "_ext.rs"@, name + ".rs"@]);
    assert(all[0].len() != all[1].len());
}

/// The names `account` to `bank_account` of the table: none holds a path separator,
/// none is the bulk operand.
proof fn lemma_plain_account_to_bank_account()
    ensures
        !has_path_separator("account"@),
        "account"@ != bulk_operand(),
        !has_path_separator("balance"@),
        "balance"@ != bulk_operand(),
        !has_path_separator("balance_transaction"@),
        "balance_transaction"@ != bulk_operand(),
        !has_path_separator("bank_account"@),
        "bank_account"@ != bulk_operand(),
{
    reveal_strlit("all");
    assert(bulk_operand().len() == 3);
    reveal_strlit("account");
    reveal_strlit("balance");
    reveal_strlit("balance_transaction");
    reveal_strlit("bank_account");
}

/// The names `card` to `credit_note` of the table: none holds a path separator,
/// none is the bulk operand.
proof fn lemma_plain_card_to_credit_note()
    ensures
        !has_path_separator("card"@),
        "card"@ != bulk_operand(),
        !has_path_separator("charge"@),
        "charge"@ != bulk_operand(),
        !has_path_separator("checkout_session"@),
        "checkout_session"@ != bulk_operand(),
        !has_path_separator("credit_note"@),
        "credit_note"@ != bulk_operand(),
{
    reveal_strlit("all");
    assert(bulk_operand().len() == 3);
    reveal_strlit("card");
    reveal_strlit("charge");
    reveal_strlit("checkout_session");
    reveal_strlit("credit_note");
}

/// The names `currency` to `invoice` of the table: none holds a path separator,
/// none is the bulk operand.
proof fn lemma_plain_currency_to_invoice()
    ensures
        !has_path_separator("currency"@),
        "currency"@ != bulk_operand(),
        !has_path_separator("customer"@),
        "customer"@ != bulk_operand(),
        !has_path_separator("customer_balance_transaction"@),
        "customer_balance_transaction"@ != bulk_operand(),
        !has_path_separator("invoice"@),
        "invoice"@ != bulk_operand(),
{
    reveal_strlit("all");
    assert(bulk_operand().len() == 3);
    reveal_strlit("currency");
    reveal_strlit("customer");
    reveal_strlit("customer_balance_transaction");
    reveal_strlit("invoice");
}

/// The names `issuing_authorization` to `issuing_merchant_data` of the table: none holds a path separator,
/// none is the bulk operand.
proof fn lemma_plain_issuing_authorization_to_issuing_merchant_data()
    ensures
        !has_path_separator("issuing_authorization"@),
        "issuing_authorization"@ != bulk_operand(),
        !has_path_separator("issuing_card"@),
        "issuing_card"@ != bulk_operand(),
        !has_path_separator("issuing_dispute"@),
        "issuing_dispute"@ != bulk_operand(),
        !has_path_separator("issuing_merchant_data"@),
        "issuing_merchant_data"@ != bulk_operand(),
{
    reveal_strlit("all");
    assert(bulk_operand().len() == 3);
    reveal_strlit("issuing_authorization");
    reveal_strlit("issuing_card");
    reveal_strlit("issuing_dispute");
    reveal_strlit("issuing_merchant_data");
}

/// The names `issuing_transaction` to `order` of the table: none holds a path separator,
/// none is the bulk operand.
proof fn lemma_plain_issuing_transaction_to_order()
    ensures
        !has_path_separator("issuing_transaction"@),
        "issuing_transaction"@ != bulk_operand(),
        !has_path_separator("line_item"@),
        "line_item"@ != bulk_operand(),
        !has_path_separator("login_links"@),
        "login_links"@ != bulk_operand(),
        !has_path_separator("order"@),
        "order"@ != bulk_operand(),
{
    reveal_strlit("all");
    assert(bulk_operand().len() == 3);
    reveal_strlit("issuing_transaction");
    reveal_strlit("line_item");
    reveal_strlit("login_links");
    reveal_strlit("order");
}

/// The names `payment_intent` to `payout` of the table: none holds a path separator,
/// none is the bulk operand.
proof fn lemma_plain_payment_intent_to_payout()
    ensures
        !has_path_separator("payment_intent"@),
        "payment_intent"@ != bulk_operand(),
        !has_path_separator("payment_method"@),
        "payment_method"@ != bulk_operand(),
        !has_path_separator("payment_source"@),
        "payment_source"@ != bulk_operand(),
        !has_path_separator("payout"@),
        "payout"@ != bulk_operand(),
{
    reveal_strlit("all");
    assert(bulk_operand().len() == 3);
    reveal_strlit("payment_intent");
    reveal_strlit("payment_method");
    reveal_strlit("payment_source");
    reveal_strlit("payout");
}

/// The names `price` to `refund` of the table: none holds a path separator,
/// none is the bulk operand.
proof fn lemma_plain_price_to_refund()
    ensures
        !has_path_separator("price"@),
        "price"@ != bulk_operand(),
        !has_path_separator("product"@),
        "product"@ != bulk_operand(),
        !has_path_separator("promotion_code"@),
        "promotion_code"@ != bulk_operand(),
        !has_path_separator("refund"@),
        "refund"@ != bulk_operand(),
{
    reveal_strlit("all");
    assert(bulk_operand().len() == 3);
    reveal_strlit("price");
    reveal_strlit("product");
    reveal_strlit("promotion_code");
    reveal_strlit("refund");
}

/// The names `review` to `subscription` of the table: none holds a path separator,
/// none is the bulk operand.
proof fn lemma_plain_review_to_subscription()
    ensures
        !has_path_separator("review"@),
        "review"@ != bulk_operand(),
        !has_path_separator("setup_intent"@),
        "setup_intent"@ != bulk_operand(),
        !has_path_separator("source"@),
        "source"@ != bulk_operand(),
        !has_path_separator("subscription"@),
        "subscription"@ != bulk_operand(),
{
    reveal_strlit("all");
    assert(bulk_operand().len() == 3);
    reveal_strlit("review");
    reveal_strlit("setup_intent");
    reveal_strlit("source");
    reveal_strlit("subscription");
}

/// The names `test_clock` to `usage_record` of the table: none holds a path separator,
/// none is the bulk operand.
proof fn lemma_plain_test_clock_to_usage_record()
    ensures
        !has_path_separator("test_clock"@),
        "test_clock"@ != bulk_operand(),
        !has_path_separator("token"@),
        "token"@ != bulk_operand(),
        !has_path_separator("transfer_reversal"@),
        "transfer_reversal"@ != bulk_operand(),
        !has_path_separator("usage_record"@),
        "usage_record"@ != bulk_operand(),
{
    reveal_strlit("all");
    assert(bulk_operand().len() == 3);
    reveal_strlit("test_clock");
    reveal_strlit("token");
    reveal_strlit("transfer_reversal");
    reveal_strlit("usage_record");
}

/// The names `webhook_endpoint` to `webhook_events` of the table: none holds a path separator,
/// none is the bulk operand.
proof fn lemma_plain_webhook_endpoint_to_webhook_events()
    ensures
        !has_path_separator("webhook_endpoint"@),
        "webhook_endpoint"@ != bulk_operand(),
        !has_path_separator("webhook_events"@),
        "webhook_events"@ != bulk_operand(),
{
    reveal_strlit("all");
    assert(bulk_operand().len() == 3);
    reveal_strlit("webhook_endpoint");
    reveal_strlit("webhook_events");
}

/// No component of the table holds a path separator in its name, and none
/// is named like the bulk operand.
pub proof fn lemma_component_names_plain(name: Seq<char>)
    requires
        is_component(name),
    ensures
        !has_path_separator(name),
        name != bulk_operand(),
{
    lemma_plain_account_to_bank_account();
    lemma_plain_card_to_credit_note();
    lemma_plain_currency_to_invoice();
    lemma_plain_issuing_authorization_to_issuing_merchant_data();
    lemma_plain_issuing_transaction_to_order();
    lemma_plain_payment_intent_to_payout();
    lemma_plain_price_to_refund();
    lemma_plain_review_to_subscription();
    lemma_plain_test_clock_to_usage_record();
    lemma_plain_webhook_endpoint_to_webhook_events();
    let k = choose|k: int| 0 <= k < component_names().len() && component_names()[k] == name;
    if k == 0 {
        assert(name == "account"@);
    } else if k == 1 {
        assert(name == "balance"@);
    } else if k == 2 {
        assert(name == "balance_transaction"@);
    } else if k == 3 {
        assert(name == "bank_account"@);
    } else if k == 4 {
        assert(name == "card"@);
    } else if k == 5 {
        assert(name == "charge"@);
    } else if k == 6 {
        assert(name == "checkout_session"@);
    } else if k == 7 {
        assert(name == "credit_note"@);
    } else if k == 8 {
        assert(name == "currency"@);
    } else if k == 9 {
        assert(name == "customer"@);
    } else if k == 10 {
        assert(name == "customer_balance_transaction"@);
    } else if k == 11 {
        assert(name == "invoice"@);
    } else if k == 12 {
        assert(name == "issuing_authorization"@);
    } else if k == 13 {
        assert(name == "issuing_card"@);
    } else if k == 14 {
        assert(name == "issuing_dispute"@);
    } else if k == 15 {
        assert(name == "issuing_merchant_data"@);
    } else if k == 16 {
        assert(name == "issuing_transaction"@);
    } else if k == 17 {
        assert(name == "line_item"@);
    } else if k == 18 {
        assert(name == "login_links"@);
    } else if k == 19 {
        assert(name == "order"@);
    } else if k == 20 {
        assert(name == "payment_intent"@);
    } else if k == 21 {
        assert(name == "payment_method"@);
    } else if k == 22 {
        assert(name == "payment_source"@);
    } else if k == 23 {
        assert(name == "payout"@);
    } else if k == 24 {
        assert(name == "price"@);
    } else if k == 25 {
        assert(name == "product"@);
    } else if k == 26 {
        assert(name == "promotion_code"@);
    } else if k == 27 {
        assert(name == "refund"@);
    } else if k == 28 {
        assert(name == "review"@);
    } else if k == 29 {
        assert(name == "setup_intent"@);
    } else if k == 30 {
        assert(name == "source"@);
    } else if k == 31 {
        assert(name == "subscription"@);
    } else if k == 32 {
        assert(name == "test_clock"@);
    } else if k == 33 {
        assert(name == "token"@);
    } else if k == 34 {
        assert(name == "transfer_reversal"@);
    } else if k == 35 {
        assert(name == "usage_record"@);
    } else if k == 36 {
        assert(name == "webhook_endpoint"@);
    } else {
        assert(name == "webhook_events"@);
    }
}

/// The names of the components whose generated files the table lists are
/// all different.
proof fn lemma_listed_names_differ()
    ensures
        "account"@ != "balance"@,
        "account"@ != "charge"@,
        "account"@ != "checkout_session"@,
        "account"@ != "customer"@,
        "account"@ != "payment_intent"@,
        "account"@ != "payment_method"@,
        "account"@ != "product"@,
        "balance"@ != "charge"@,
        "balance"@ != "checkout_session"@,
        "balance"@ != "customer"@,
        "balance"@ != "payment_intent"@,
        "balance"@ != "payment_method"@,
        "balance"@ != "product"@,
        "charge"@ != "checkout_session"@,
        "charge"@ != "customer"@,
        "charge"@ != "payment_intent"@,
        "charge"@ != "payment_method"@,
        "charge"@ != "product"@,
        "checkout_session"@ != "customer"@,
        "checkout_session"@ != "payment_intent"@,
        "checkout_session"@ != "payment_method"@,
        "checkout_session"@ != "product"@,
        "customer"@ != "payment_intent"@,
        "customer"@ != "payment_method"@,
        "customer"@ != "product"@,
        "payment_intent"@ != "payment_method"@,
        "payment_intent"@ != "product"@,
        "payment_method"@ != "product"@,
{
    reveal_strlit("account");
    reveal_strlit("balance");
    reveal_strlit("charge");
    reveal_strlit("checkout_session");
    reveal_strlit("customer");
    reveal_strlit("payment_intent");
    reveal_strlit("payment_method");
    reveal_strlit("product");
    assert("account"@.len() == 7);
    assert("balance"@.len() == 7);
    assert("charge"@.len() == 6);
    assert("checkout_session"@.len() == 16);
    assert("customer"@.len() == 8);
    assert("payment_intent"@.len() == 14);
    assert("payment_method"@.len() == 14);
    assert("product"@.len() == 7);
    assert("account"@[0] != "balance"@[0]);
    assert("account"@[0] != "product"@[0]);
    assert("balance"@[0] != "product"@[0]);
    assert("payment_intent"@[8] != "payment_method"@[8]);
}

/// Some generated files of `account`: none holds a path separator.
proof fn lemma_account_files_plain_1()
    ensures
        !has_path_separator("account.rs"@),
        !has_path_separator("account_link.rs"@),
        !has_path_separator("account_session.rs"@),
        !has_path_separator("account_application_authorized.rs"@),
{
    reveal_strlit("account.rs");
    reveal_strlit("account_link.rs");
    reveal_strlit("account_session.rs");
    reveal_strlit("account_application_authorized.rs");
}

/// Some generated files of `account`: none holds a path separator.
proof fn lemma_account_files_plain_2()
    ensures
        !has_path_separator("account_application_deauthorized.rs"@),
        !has_path_separator("account_external_account_created.rs"@),
        !has_path_separator("account_external_account_deleted.rs"@),
        !has_path_separator("account_external_account_updated.rs"@),
{
    reveal_strlit("account_application_deauthorized.rs");
    reveal_strlit("account_external_account_created.rs");
    reveal_strlit("account_external_account_deleted.rs");
    reveal_strlit("account_external_account_updated.rs");
}

/// Some generated files of `account`: none holds a path separator.
proof fn lemma_account_files_plain_3()
    ensures
        !has_path_separator("account_updated.rs"@),
{
    reveal_strlit("account_updated.rs");
}

/// The file set of `account` meets the invariant of file sets.
proof fn lemma_account_files_wf()
    ensures
        component_files("account"@).wf(),
{
    lemma_listed_names_differ();
    lemma_plain_account_to_bank_account();
    lemma_suffixes_plain();
    lemma_separator_in_parts("account"@, "_ext.rs"@);
    lemma_account_files_plain_1();
    lemma_account_files_plain_2();
    lemma_account_files_plain_3();
    reveal_strlit("account");
    reveal_strlit("_ext.rs");
    reveal_strlit("account.rs");
    reveal_strlit("account_link.rs");
    reveal_strlit("account_session.rs");
    reveal_strlit("account_application_authorized.rs");
    reveal_strlit("account_application_deauthorized.rs");
    reveal_strlit("account_external_account_created.rs");
    reveal_strlit("account_external_account_deleted.rs");
    reveal_strlit("account_external_account_updated.rs");
    reveal_strlit("account_updated.rs");
    let extension = "account"@ + "_ext.rs"@;
    assert("account_session.rs"@[8] != "account_updated.rs"@[8]);
    assert("account_application_deauthorized.rs"@[8] != "account_external_account_created.rs"@[8]);
    assert("account_application_deauthorized.rs"@[8] != "account_external_account_deleted.rs"@[8]);
    assert("account_application_deauthorized.rs"@[8] != "account_external_account_updated.rs"@[8]);
    assert("account_external_account_created.rs"@[25] != "account_external_account_deleted.rs"@[25]);
    assert("account_external_account_created.rs"@[25] != "account_external_account_updated.rs"@[25]);
    assert("account_external_account_deleted.rs"@[25] != "account_external_account_updated.rs"@[25]);
    let all = component_files("account"@).all_files();
    assert(all =~= seq![
        extension,
        "account.rs"@,
        "account_link.rs"@,
        "account_session.rs"@,
        "account_application_authorized.rs"@,
        "account_application_deauthorized.rs"@,
        "account_external_account_created.rs"@,
        "account_external_account_deleted.rs"@,
        "account_external_account_updated.rs"@,
        "account_updated.rs"@,
    ]);
}

/// Some generated files of `balance`: none holds a path separator.
proof fn lemma_balance_files_plain_1()
    ensures
        !has_path_separator("balance.rs"@),
        !has_path_separator("balance_amount_by_source_type.rs"@),
        !has_path_separator("balance_available.rs"@),
{
    reveal_strlit("balance.rs");
    reveal_strlit("balance_amount_by_source_type.rs");
    reveal_strlit("balance_available.rs");
}

/// The file set of `balance` meets the invariant of file sets.
proof fn lemma_balance_files_wf()
    ensures
        component_files("balance"@).wf(),
{
    lemma_listed_names_differ();
    lemma_plain_account_to_bank_account();
    lemma_suffixes_plain();
    lemma_separator_in_parts("balance"@, "_ext.rs"@);
    lemma_balance_files_plain_1();
    reveal_strlit("balance");
    reveal_strlit("_ext.rs");
    reveal_strlit("balance.rs");
    reveal_strlit("balance_amount_by_source_type.rs");
    reveal_strlit("balance_available.rs");
    let extension = "balance"@ + "_ext.rs"@;
    let all = component_files("balance"@).all_files();
    assert(all =~= seq![
        extension,
        "balance.rs"@,
        "balance_amount_by_source_type.rs"@,
        "balance_available.rs"@,
    ]);
}

/// Some generated files of `charge`: none holds a path separator.
proof fn lemma_charge_files_plain_1()
    ensures
        !has_path_separator("charge.rs"@),
        !has_path_separator("charge_captured.rs"@),
        !has_path_separator("charge_expired.rs"@),
        !has_path_separator("charge_failed.rs"@),
{
    reveal_strlit("charge.rs");
    reveal_strlit("charge_captured.rs");
    reveal_strlit("charge_expired.rs");
    reveal_strlit("charge_failed.rs");
}

/// Some generated files of `charge`: none holds a path separator.
proof fn lemma_charge_files_plain_2()
    ensures
        !has_path_separator("charge_pending.rs"@),
        !has_path_separator("charge_refunded.rs"@),
        !has_path_separator("charge_succeeded.rs"@),
        !has_path_separator("charge_updated.rs"@),
{
    reveal_strlit("charge_pending.rs");
    reveal_strlit("charge_refunded.rs");
    reveal_strlit("charge_succeeded.rs");
    reveal_strlit("charge_updated.rs");
}

/// The file set of `charge` meets the invariant of file sets.
proof fn lemma_charge_files_wf()
    ensures
        component_files("charge"@).wf(),
{
    lemma_listed_names_differ();
    lemma_plain_card_to_credit_note();
    lemma_suffixes_plain();
    lemma_separator_in_parts("charge"@, "_ext.rs"@);
    lemma_charge_files_plain_1();
    lemma_charge_files_plain_2();
    reveal_strlit("charge");
    reveal_strlit("_ext.rs");
    reveal_strlit("charge.rs");
    reveal_strlit("charge_captured.rs");
    reveal_strlit("charge_expired.rs");
    reveal_strlit("charge_failed.rs");
    reveal_strlit("charge_pending.rs");
    reveal_strlit("charge_refunded.rs");
    reveal_strlit("charge_succeeded.rs");
    reveal_strlit("charge_updated.rs");
    let extension = "charge"@ + "_ext.rs"@;
    assert("charge_captured.rs"@[7] != "charge_refunded.rs"@[7]);
    assert("charge_expired.rs"@[7] != "charge_pending.rs"@[7]);
    assert("charge_expired.rs"@[7] != "charge_updated.rs"@[7]);
    assert("charge_pending.rs"@[7] != "charge_updated.rs"@[7]);
    let all = component_files("charge"@).all_files();
    assert(all =~= seq![
        extension,
        "charge.rs"@,
        "charge_captured.rs"@,
        "charge_expired.rs"@,
        "charge_failed.rs"@,
        "charge_pending.rs"@,
        "charge_refunded.rs"@,
        "charge_succeeded.rs"@,
        "charge_updated.rs"@,
    ]);
}

/// Some generated files of `checkout_session`: none holds a path separator.
proof fn lemma_checkout_session_files_plain_1()
    ensures
        !has_path_separator("checkout_session.rs"@),
        !has_path_separator("checkout_session_async_payment_failed.rs"@),
        !has_path_separator("checkout_session_async_payment_succeeded.rs"@),
        !has_path_separator("checkout_session_completed.rs"@),
{
    reveal_strlit("checkout_session.rs");
    reveal_strlit("checkout_session_async_payment_failed.rs");
    reveal_strlit("checkout_session_async_payment_succeeded.rs");
    reveal_strlit("checkout_session_completed.rs");
}

/// Some generated files of `checkout_session`: none holds a path separator.
proof fn lemma_checkout_session_files_plain_2()
    ensures
        !has_path_separator("checkout_session_expired.rs"@),
{
    reveal_strlit("checkout_session_expired.rs");
}

/// The file set of `checkout_session` meets the invariant of file sets.
proof fn lemma_checkout_session_files_wf()
    ensures
        component_files("checkout_session"@).wf(),
{
    lemma_listed_names_differ();
    lemma_plain_card_to_credit_note();
    lemma_suffixes_plain();
    lemma_separator_in_parts("checkout_session"@, "_ext.rs"@);
    lemma_checkout_session_files_plain_1();
    lemma_checkout_session_files_plain_2();
    reveal_strlit("checkout_session");
    reveal_strlit("_ext.rs");
    reveal_strlit("checkout_session.rs");
    reveal_strlit("checkout_session_async_payment_failed.rs");
    reveal_strlit("checkout_session_async_payment_succeeded.rs");
    reveal_strlit("checkout_session_completed.rs");
    reveal_strlit("checkout_session_expired.rs");
    let extension = "checkout_session"@ + "_ext.rs"@;
    let all = component_files("checkout_session"@).all_files();
    assert(all =~= seq![
        extension,
        "checkout_session.rs"@,
        "checkout_session_async_payment_failed.rs"@,
        "checkout_session_async_payment_succeeded.rs"@,
        "checkout_session_completed.rs"@,
        "checkout_session_expired.rs"@,
    ]);
}

/// Some generated files of `customer`: none holds a path separator.
proof fn lemma_customer_files_plain_1()
    ensures
        !has_path_separator("customer.rs"@),
        !has_path_separator("customer_created.rs"@),
        !has_path_separator("customer_deleted.rs"@),
        !has_path_separator("customer_updated.rs"@),
{
    reveal_strlit("customer.rs");
    reveal_strlit("customer_created.rs");
    reveal_strlit("customer_deleted.rs");
    reveal_strlit("customer_updated.rs");
}

/// Some generated files of `customer`: none holds a path separator.
proof fn lemma_customer_files_plain_2()
    ensures
        !has_path_separator("customer_discount_created.rs"@),
        !has_path_separator("customer_discount_deleted.rs"@),
        !has_path_separator("customer_discount_updated.rs"@),
        !has_path_separator("customer_source_created.rs"@),
{
    reveal_strlit("customer_discount_created.rs");
    reveal_strlit("customer_discount_deleted.rs");
    reveal_strlit("customer_discount_updated.rs");
    reveal_strlit("customer_source_created.rs");
}

/// Some generated files of `customer`: none holds a path separator.
proof fn lemma_customer_files_plain_3()
    ensures
        !has_path_separator("customer_source_deleted.rs"@),
        !has_path_separator("customer_source_expiring.rs"@),
        !has_path_separator("customer_source_updated.rs"@),
        !has_path_separator("customer_subscription_created.rs"@),
{
    reveal_strlit("customer_source_deleted.rs");
    reveal_strlit("customer_source_expiring.rs");
    reveal_strlit("customer_source_updated.rs");
    reveal_strlit("customer_subscription_created.rs");
}

/// Some generated files of `customer`: none holds a path separator.
proof fn lemma_customer_files_plain_4()
    ensures
        !has_path_separator("customer_subscription_deleted.rs"@),
        !has_path_separator("customer_subscription_updated.rs"@),
        !has_path_separator("customer_tax_id_created.rs"@),
        !has_path_separator("customer_tax_id_deleted.rs"@),
{
    reveal_strlit("customer_subscription_deleted.rs");
    reveal_strlit("customer_subscription_updated.rs");
    reveal_strlit("customer_tax_id_created.rs");
    reveal_strlit("customer_tax_id_deleted.rs");
}

/// Some generated files of `customer`: none holds a path separator.
proof fn lemma_customer_files_plain_5()
    ensures
        !has_path_separator("customer_tax_id_updated.rs"@),
{
    reveal_strlit("customer_tax_id_updated.rs");
}

/// The file set of `customer` meets the invariant of file sets.
proof fn lemma_customer_files_wf()
    ensures
        component_files("customer"@).wf(),
{
    lemma_listed_names_differ();
    lemma_plain_currency_to_invoice();
    lemma_suffixes_plain();
    lemma_separator_in_parts("customer"@, "_ext.rs"@);
    lemma_customer_files_plain_1();
    lemma_customer_files_plain_2();
    lemma_customer_files_plain_3();
    lemma_customer_files_plain_4();
    lemma_customer_files_plain_5();
    reveal_strlit("customer");
    reveal_strlit("_ext.rs");
    reveal_strlit("customer.rs");
    reveal_strlit("customer_created.rs");
    reveal_strlit("customer_deleted.rs");
    reveal_strlit("customer_updated.rs");
    reveal_strlit("customer_discount_created.rs");
    reveal_strlit("customer_discount_deleted.rs");
    reveal_strlit("customer_discount_updated.rs");
    reveal_strlit("customer_source_created.rs");
    reveal_strlit("customer_source_deleted.rs");
    reveal_strlit("customer_source_expiring.rs");
    reveal_strlit("customer_source_updated.rs");
    reveal_strlit("customer_subscription_created.rs");
    reveal_strlit("customer_subscription_deleted.rs");
    reveal_strlit("customer_subscription_updated.rs");
    reveal_strlit("customer_tax_id_created.rs");
    reveal_strlit("customer_tax_id_deleted.rs");
    reveal_strlit("customer_tax_id_updated.rs");
    let extension = "customer"@ + "_ext.rs"@;
    assert("customer_created.rs"@[9] != "customer_deleted.rs"@[9]);
    assert("customer_created.rs"@[9] != "customer_updated.rs"@[9]);
    assert("customer_deleted.rs"@[9] != "customer_updated.rs"@[9]);
    assert("customer_discount_created.rs"@[18] != "customer_discount_deleted.rs"@[18]);
    assert("customer_discount_created.rs"@[18] != "customer_discount_updated.rs"@[18]);
    assert("customer_discount_deleted.rs"@[18] != "customer_discount_updated.rs"@[18]);
    assert("customer_source_created.rs"@[16] != "customer_source_deleted.rs"@[16]);
    assert("customer_source_created.rs"@[16] != "customer_source_updated.rs"@[16]);
    assert("customer_source_created.rs"@[9] != "customer_tax_id_created.rs"@[9]);
    assert("customer_source_created.rs"@[9] != "customer_tax_id_deleted.rs"@[9]);
    assert("customer_source_created.rs"@[9] != "customer_tax_id_updated.rs"@[9]);
    assert("customer_source_deleted.rs"@[16] != "customer_source_updated.rs"@[16]);
    assert("customer_source_deleted.rs"@[9] != "customer_tax_id_created.rs"@[9]);
    assert("customer_source_deleted.rs"@[9] != "customer_tax_id_deleted.rs"@[9]);
    assert("customer_source_deleted.rs"@[9] != "customer_tax_id_updated.rs"@[9]);
    assert("customer_source_updated.rs"@[9] != "customer_tax_id_created.rs"@[9]);
    assert("customer_source_updated.rs"@[9] != "customer_tax_id_deleted.rs"@[9]);
    assert("customer_source_updated.rs"@[9] != "customer_tax_id_updated.rs"@[9]);
    assert("customer_subscription_created.rs"@[22] != "customer_subscription_deleted.rs"@[22]);
    assert("customer_subscription_created.rs"@[22] != "customer_subscription_updated.rs"@[22]);
    assert("customer_subscription_deleted.rs"@[22] != "customer_subscription_updated.rs"@[22]);
    assert("customer_tax_id_created.rs"@[16] != "customer_tax_id_deleted.rs"@[16]);
    assert("customer_tax_id_created.rs"@[16] != "customer_tax_id_updated.rs"@[16]);
    assert("customer_tax_id_deleted.rs"@[16] != "customer_tax_id_updated.rs"@[16]);
    let all = component_files("customer"@).all_files();
    assert(all =~= seq![
        extension,
        "customer.rs"@,
        "customer_created.rs"@,
        "customer_deleted.rs"@,
        "customer_updated.rs"@,
        "customer_discount_created.rs"@,
        "customer_discount_deleted.rs"@,
        "customer_discount_updated.rs"@,
        "customer_source_created.rs"@,
        "customer_source_deleted.rs"@,
        "customer_source_expiring.rs"@,
        "customer_source_updated.rs"@,
        "customer_subscription_created.rs"@,
        "customer_subscription_deleted.rs"@,
        "customer_subscription_updated.rs"@,
        "customer_tax_id_created.rs"@,
        "customer_tax_id_deleted.rs"@,
        "customer_tax_id_updated.rs"@,
    ]);
}

/// Some generated files of `payment_intent`: none holds a path separator.
proof fn lemma_payment_intent_files_plain_1()
    ensures
        !has_path_separator("payment_intent.rs"@),
        !has_path_separator("payment_intent_amount_capturable_updated.rs"@),
        !has_path_separator("payment_intent_canceled.rs"@),
        !has_path_separator("payment_intent_created.rs"@),
{
    reveal_strlit("payment_intent.rs");
    reveal_strlit("payment_intent_amount_capturable_updated.rs");
    reveal_strlit("payment_intent_canceled.rs");
    reveal_strlit("payment_intent_created.rs");
}

/// Some generated files of `payment_intent`: none holds a path separator.
proof fn lemma_payment_intent_files_plain_2()
    ensures
        !has_path_separator("payment_intent_partially_funded.rs"@),
        !has_path_separator("payment_intent_payment_failed.rs"@),
        !has_path_separator("payment_intent_processing.rs"@),
        !has_path_separator("payment_intent_requires_action.rs"@),
{
    reveal_strlit("payment_intent_partially_funded.rs");
    reveal_strlit("payment_intent_payment_failed.rs");
    reveal_strlit("payment_intent_processing.rs");
    reveal_strlit("payment_intent_requires_action.rs");
}

/// Some generated files of `payment_intent`: none holds a path separator.
proof fn lemma_payment_intent_files_plain_3()
    ensures
        !has_path_separator("payment_intent_succeeded.rs"@),
{
    reveal_strlit("payment_intent_succeeded.rs");
}

/// The file set of `payment_intent` meets the invariant of file sets.
proof fn lemma_payment_intent_files_wf()
    ensures
        component_files("payment_intent"@).wf(),
{
    lemma_listed_names_differ();
    lemma_plain_payment_intent_to_payout();
    lemma_suffixes_plain();
    lemma_separator_in_parts("payment_intent"@, "_ext.rs"@);
    lemma_payment_intent_files_plain_1();
    lemma_payment_intent_files_plain_2();
    lemma_payment_intent_files_plain_3();
    reveal_strlit("payment_intent");
    reveal_strlit("_ext.rs");
    reveal_strlit("payment_intent.rs");
    reveal_strlit("payment_intent_amount_capturable_updated.rs");
    reveal_strlit("payment_intent_canceled.rs");
    reveal_strlit("payment_intent_created.rs");
    reveal_strlit("payment_intent_partially_funded.rs");
    reveal_strlit("payment_intent_payment_failed.rs");
    reveal_strlit("payment_intent_processing.rs");
    reveal_strlit("payment_intent_requires_action.rs");
    reveal_strlit("payment_intent_succeeded.rs");
    let extension = "payment_intent"@ + "_ext.rs"@;
    let all = component_files("payment_intent"@).all_files();
    assert(all =~= seq![
        extension,
        "payment_intent.rs"@,
        "payment_intent_amount_capturable_updated.rs"@,
        "payment_intent_canceled.rs"@,
        "payment_intent_created.rs"@,
        "payment_intent_partially_funded.rs"@,
        "payment_intent_payment_failed.rs"@,
        "payment_intent_processing.rs"@,
        "payment_intent_requires_action.rs"@,
        "payment_intent_succeeded.rs"@,
    ]);
}

/// Some generated files of `payment_method`: none holds a path separator.
proof fn lemma_payment_method_files_plain_1()
    ensures
        !has_path_separator("payment_method.rs"@),
        !has_path_separator("payment_method_attached.rs"@),
        !has_path_separator("payment_method_automatically_updated.rs"@),
        !has_path_separator("payment_method_detached.rs"@),
{
    reveal_strlit("payment_method.rs");
    reveal_strlit("payment_method_attached.rs");
    reveal_strlit("payment_method_automatically_updated.rs");
    reveal_strlit("payment_method_detached.rs");
}

/// Some generated files of `payment_method`: none holds a path separator.
proof fn lemma_payment_method_files_plain_2()
    ensures
        !has_path_separator("payment_method_updated.rs"@),
        !has_path_separator("payment_method_card.rs"@),
        !has_path_separator("payment_method_sepa_debit.rs"@),
{
    reveal_strlit("payment_method_updated.rs");
    reveal_strlit("payment_method_card.rs");
    reveal_strlit("payment_method_sepa_debit.rs");
}

/// The file set of `payment_method` meets the invariant of file sets.
proof fn lemma_payment_method_files_wf()
    ensures
        component_files("payment_method"@).wf(),
{
    lemma_listed_names_differ();
    lemma_plain_payment_intent_to_payout();
    lemma_suffixes_plain();
    lemma_separator_in_parts("payment_method"@, "_ext.rs"@);
    lemma_payment_method_files_plain_1();
    lemma_payment_method_files_plain_2();
    reveal_strlit("payment_method");
    reveal_strlit("_ext.rs");
    reveal_strlit("payment_method.rs");
    reveal_strlit("payment_method_attached.rs");
    reveal_strlit("payment_method_automatically_updated.rs");
    reveal_strlit("payment_method_detached.rs");
    reveal_strlit("payment_method_updated.rs");
    reveal_strlit("payment_method_card.rs");
    reveal_strlit("payment_method_sepa_debit.rs");
    let extension = "payment_method"@ + "_ext.rs"@;
    assert("payment_method_attached.rs"@[15] != "payment_method_detached.rs"@[15]);
    let all = component_files("payment_method"@).all_files();
    assert(all =~= seq![
        extension,
        "payment_method.rs"@,
        "payment_method_attached.rs"@,
        "payment_method_automatically_updated.rs"@,
        "payment_method_detached.rs"@,
        "payment_method_updated.rs"@,
        "payment_method_card.rs"@,
        "payment_method_sepa_debit.rs"@,
    ]);
}

/// Some generated files of `product`: none holds a path separator.
proof fn lemma_product_files_plain_1()
    ensures
        !has_path_separator("product.rs"@),
        !has_path_separator("product_created.rs"@),
        !has_path_separator("product_deleted.rs"@),
        !has_path_separator("product_updated.rs"@),
{
    reveal_strlit("product.rs");
    reveal_strlit("product_created.rs");
    reveal_strlit("product_deleted.rs");
    reveal_strlit("product_updated.rs");
}

/// The file set of `product` meets the invariant of file sets.
proof fn lemma_product_files_wf()
    ensures
        component_files("product"@).wf(),
{
    lemma_listed_names_differ();
    lemma_plain_price_to_refund();
    lemma_suffixes_plain();
    lemma_separator_in_parts("product"@, "_ext.rs"@);
    lemma_product_files_plain_1();
    reveal_strlit("product");
    reveal_strlit("_ext.rs");
    reveal_strlit("product.rs");
    reveal_strlit("product_created.rs");
    reveal_strlit("product_deleted.rs");
    reveal_strlit("product_updated.rs");
    let extension = "product"@ + "_ext.rs"@;
    assert("product_created.rs"@[8] != "product_deleted.rs"@[8]);
    assert("product_created.rs"@[8] != "product_updated.rs"@[8]);
    assert("product_deleted.rs"@[8] != "product_updated.rs"@[8]);
    let all = component_files("product"@).all_files();
    assert(all =~= seq![
        extension,
        "product.rs"@,
        "product_created.rs"@,
        "product_deleted.rs"@,
        "product_updated.rs"@,
    ]);
}

/// From `account` to `card` each name of the table comes before the next.
proof fn lemma_ascending_account_to_card()
    ensures
        lex_lt("account"@, "balance"@),
        lex_lt("balance"@, "balance_transaction"@),
        lex_lt("balance_transaction"@, "bank_account"@),
        lex_lt("bank_account"@, "card"@),
{
    reveal_strlit("account");
    reveal_strlit("balance");
    reveal_strlit("balance_transaction");
    reveal_strlit("bank_account");
    reveal_strlit("card");
    assert(parts_below_at("account"@, "balance"@, 0));
    assert(parts_below_at("balance"@, "balance_transaction"@, 7));
    assert(parts_below_at("balance_transaction"@, "bank_account"@, 2));
    assert(parts_below_at("bank_account"@, "card"@, 0));
}

/// From `card` to `currency` each name of the table comes before the next.
proof fn lemma_ascending_card_to_currency()
    ensures
        lex_lt("card"@, "charge"@),
        lex_lt("charge"@, "checkout_session"@),
        lex_lt("checkout_session"@, "credit_note"@),
        lex_lt("credit_note"@, "currency"@),
{
    reveal_strlit("card");
    reveal_strlit("charge");
    reveal_strlit("checkout_session");
    reveal_strlit("credit_note");
    reveal_strlit("currency");
    assert(parts_below_at("card"@, "charge"@, 1));
    assert(parts_below_at("charge"@, "checkout_session"@, 2));
    assert(parts_below_at("checkout_session"@, "credit_note"@, 1));
    assert(parts_below_at("credit_note"@, "currency"@, 1));
}

/// From `currency` to `issuing_authorization` each name of the table comes before the next.
proof fn lemma_ascending_currency_to_issuing_authorization()
    ensures
        lex_lt("currency"@, "customer"@),
        lex_lt("customer"@, "customer_balance_transaction"@),
        lex_lt("customer_balance_transaction"@, "invoice"@),
        lex_lt("invoice"@, "issuing_authorization"@),
{
    reveal_strlit("currency");
    reveal_strlit("customer");
    reveal_strlit("customer_balance_transaction");
    reveal_strlit("invoice");
    reveal_strlit("issuing_authorization");
    assert(parts_below_at("currency"@, "customer"@, 2));
    assert(parts_below_at("customer"@, "customer_balance_transaction"@, 8));
    assert(parts_below_at("customer_balance_transaction"@, "invoice"@, 0));
    assert(parts_below_at("invoice"@, "issuing_authorization"@, 1));
}

/// From `issuing_authorization` to `issuing_transaction` each name of the table comes before the next.
proof fn lemma_ascending_issuing_authorization_to_issuing_transaction()
    ensures
        lex_lt("issuing_authorization"@, "issuing_card"@),
        lex_lt("issuing_card"@, "issuing_dispute"@),
        lex_lt("issuing_dispute"@, "issuing_merchant_data"@),
        lex_lt("issuing_merchant_data"@, "issuing_transaction"@),
{
    reveal_strlit("issuing_authorization");
    reveal_strlit("issuing_card");
    reveal_strlit("issuing_dispute");
    reveal_strlit("issuing_merchant_data");
    reveal_strlit("issuing_transaction");
    assert(parts_below_at("issuing_authorization"@, "issuing_card"@, 8));
    assert(parts_below_at("issuing_card"@, "issuing_dispute"@, 8));
    assert(parts_below_at("issuing_dispute"@, "issuing_merchant_data"@, 8));
    assert(parts_below_at("issuing_merchant_data"@, "issuing_transaction"@, 8));
}

/// From `issuing_transaction` to `payment_intent` each name of the table comes before the next.
proof fn lemma_ascending_issuing_transaction_to_payment_intent()
    ensures
        lex_lt("issuing_transaction"@, "line_item"@),
        lex_lt("line_item"@, "login_links"@),
        lex_lt("login_links"@, "order"@),
        lex_lt("order"@, "payment_intent"@),
{
    reveal_strlit("issuing_transaction");
    reveal_strlit("line_item");
    reveal_strlit("login_links");
    reveal_strlit("order");
    reveal_strlit("payment_intent");
    assert(parts_below_at("issuing_transaction"@, "line_item"@, 0));
    assert(parts_below_at("line_item"@, "login_links"@, 1));
    assert(parts_below_at("login_links"@, "order"@, 0));
    assert(parts_below_at("order"@, "payment_intent"@, 0));
}

/// From `payment_intent` to `price` each name of the table comes before the next.
proof fn lemma_ascending_payment_intent_to_price()
    ensures
        lex_lt("payment_intent"@, "payment_method"@),
        lex_lt("payment_method"@, "payment_source"@),
        lex_lt("payment_source"@, "payout"@),
        lex_lt("payout"@, "price"@),
{
    reveal_strlit("payment_intent");
    reveal_strlit("payment_method");
    reveal_strlit("payment_source");
    reveal_strlit("payout");
    reveal_strlit("price");
    assert(parts_below_at("payment_intent"@, "payment_method"@, 8));
    assert(parts_below_at("payment_method"@, "payment_source"@, 8));
    assert(parts_below_at("payment_source"@, "payout"@, 3));
    assert(parts_below_at("payout"@, "price"@, 1));
}

/// From `price` to `review` each name of the table comes before the next.
proof fn lemma_ascending_price_to_review()
    ensures
        lex_lt("price"@, "product"@),
        lex_lt("product"@, "promotion_code"@),
        lex_lt("promotion_code"@, "refund"@),
        lex_lt("refund"@, "review"@),
{
    reveal_strlit("price");
    reveal_strlit("product");
    reveal_strlit("promotion_code");
    reveal_strlit("refund");
    reveal_strlit("review");
    assert(parts_below_at("price"@, "product"@, 2));
    assert(parts_below_at("product"@, "promotion_code"@, 3));
    assert(parts_below_at("promotion_code"@, "refund"@, 0));
    assert(parts_below_at("refund"@, "review"@, 2));
}

/// From `review` to `test_clock` each name of the table comes before the next.
proof fn lemma_ascending_review_to_test_clock()
    ensures
        lex_lt("review"@, "setup_intent"@),
        lex_lt("setup_intent"@, "source"@),
        lex_lt("source"@, "subscription"@),
        lex_lt("subscription"@, "test_clock"@),
{
    reveal_strlit("review");
    reveal_strlit("setup_intent");
    reveal_strlit("source");
    reveal_strlit("subscription");
    reveal_strlit("test_clock");
    assert(parts_below_at("review"@, "setup_intent"@, 0));
    assert(parts_below_at("setup_intent"@, "source"@, 1));
    assert(parts_below_at("source"@, "subscription"@, 1));
    assert(parts_below_at("subscription"@, "test_clock"@, 0));
}

/// From `test_clock` to `webhook_endpoint` each name of the table comes before the next.
proof fn lemma_ascending_test_clock_to_webhook_endpoint()
    ensures
        lex_lt("test_clock"@, "token"@),
        lex_lt("token"@, "transfer_reversal"@),
        lex_lt("transfer_reversal"@, "usage_record"@),
        lex_lt("usage_record"@, "webhook_endpoint"@),
{
    reveal_strlit("test_clock");
    reveal_strlit("token");
    reveal_strlit("transfer_reversal");
    reveal_strlit("usage_record");
    reveal_strlit("webhook_endpoint");
    assert(parts_below_at("test_clock"@, "token"@, 1));
    assert(parts_below_at("token"@, "transfer_reversal"@, 1));
    assert(parts_below_at("transfer_reversal"@, "usage_record"@, 0));
    assert(parts_below_at("usage_record"@, "webhook_endpoint"@, 0));
}

/// From `webhook_endpoint` to `webhook_events` each name of the table comes before the next.
proof fn lemma_ascending_webhook_endpoint_to_webhook_events()
    ensures
        lex_lt("webhook_endpoint"@, "webhook_events"@),
{
    reveal_strlit("webhook_endpoint");
    reveal_strlit("webhook_events");
    assert(parts_below_at("webhook_endpoint"@, "webhook_events"@, 9));
}

/// The names of the table stand in strictly ascending lexicographic
/// order: the table lists no component twice.
pub proof fn lemma_component_names_sorted()
    ensures
        strictly_sorted(component_names()),
{
    lemma_ascending_account_to_card();
    lemma_ascending_card_to_currency();
    lemma_ascending_currency_to_issuing_authorization();
    lemma_ascending_issuing_authorization_to_issuing_transaction();
    lemma_ascending_issuing_transaction_to_payment_intent();
    lemma_ascending_payment_intent_to_price();
    lemma_ascending_price_to_review();
    lemma_ascending_review_to_test_clock();
    lemma_ascending_test_clock_to_webhook_endpoint();
    lemma_ascending_webhook_endpoint_to_webhook_events();
    let names = component_names();
    assert forall|i: int| 0 <= i < names.len() - 1 implies lex_lt(
        names[i],
        #[trigger] names[i + 1],
    ) by {
        if i == 0 {
            assert(names[i] == "account"@ && names[i + 1] == "balance"@);
        } else if i == 1 {
            assert(names[i] == "balance"@ && names[i + 1] == "balance_transaction"@);
        } else if i == 2 {
            assert(names[i] == "balance_transaction"@ && names[i + 1] == "bank_account"@);
        } else if i == 3 {
            assert(names[i] == "bank_account"@ && names[i + 1] == "card"@);
        } else if i == 4 {
            assert(names[i] == "card"@ && names[i + 1] == "charge"@);
        } else if i == 5 {
            assert(names[i] == "charge"@ && names[i + 1] == "checkout_session"@);
        } else if i == 6 {
            assert(names[i] == "checkout_session"@ && names[i + 1] == "credit_note"@);
        } else if i == 7 {
            assert(names[i] == "credit_note"@ && names[i + 1] == "currency"@);
        } else if i == 8 {
            assert(names[i] == "currency"@ && names[i + 1] == "customer"@);
        } else if i == 9 {
            assert(names[i] == "customer"@ && names[i + 1] == "customer_balance_transaction"@);
        } else if i == 10 {
            assert(names[i] == "customer_balance_transaction"@ && names[i + 1] == "invoice"@);
        } else if i == 11 {
            assert(names[i] == "invoice"@ && names[i + 1] == "issuing_authorization"@);
        } else if i == 12 {
            assert(names[i] == "issuing_authorization"@ && names[i + 1] == "issuing_card"@);
        } else if i == 13 {
            assert(names[i] == "issuing_card"@ && names[i + 1] == "issuing_dispute"@);
        } else if i == 14 {
            assert(names[i] == "issuing_dispute"@ && names[i + 1] == "issuing_merchant_data"@);
        } else if i == 15 {
            assert(names[i] == "issuing_merchant_data"@ && names[i + 1] == "issuing_transaction"@);
        } else if i == 16 {
            assert(names[i] == "issuing_transaction"@ && names[i + 1] == "line_item"@);
        } else if i == 17 {
            assert(names[i] == "line_item"@ && names[i + 1] == "login_links"@);
        } else if i == 18 {
            assert(names[i] == "login_links"@ && names[i + 1] == "order"@);
        } else if i == 19 {
            assert(names[i] == "order"@ && names[i + 1] == "payment_intent"@);
        } else if i == 20 {
            assert(names[i] == "payment_intent"@ && names[i + 1] == "payment_method"@);
        } else if i == 21 {
            assert(names[i] == "payment_method"@ && names[i + 1] == "payment_source"@);
        } else if i == 22 {
            assert(names[i] == "payment_source"@ && names[i + 1] == "payout"@);
        } else if i == 23 {
            assert(names[i] == "payout"@ && names[i + 1] == "price"@);
        } else if i == 24 {
            assert(names[i] == "price"@ && names[i + 1] == "product"@);
        } else if i == 25 {
            assert(names[i] == "product"@ && names[i + 1] == "promotion_code"@);
        } else if i == 26 {
            assert(names[i] == "promotion_code"@ && names[i + 1] == "refund"@);
        } else if i == 27 {
            assert(names[i] == "refund"@ && names[i + 1] == "review"@);
        } else if i == 28 {
            assert(names[i] == "review"@ && names[i + 1] == "setup_intent"@);
        } else if i == 29 {
            assert(names[i] == "setup_intent"@ && names[i + 1] == "source"@);
        } else if i == 30 {
            assert(names[i] == "source"@ && names[i + 1] == "subscription"@);
        } else if i == 31 {
            assert(names[i] == "subscription"@ && names[i + 1] == "test_clock"@);
        } else if i == 32 {
            assert(names[i] == "test_clock"@ && names[i + 1] == "token"@);
        } else if i == 33 {
            assert(names[i] == "token"@ && names[i + 1] == "transfer_reversal"@);
        } else if i == 34 {
            assert(names[i] == "transfer_reversal"@ && names[i + 1] == "usage_record"@);
        } else if i == 35 {
            assert(names[i] == "usage_record"@ && names[i + 1] == "webhook_endpoint"@);
        } else {
            assert(names[i] == "webhook_endpoint"@ && names[i + 1] == "webhook_events"@);
        }
    }
    lemma_ascending_neighbours(names);
}

/// The table meets the invariants of the registry: a component is never
/// named like the bulk operand, and its file set has a generated file, no
/// file name twice and no path separator in a file name.
pub proof fn lemma_table_well_formed(name: Seq<char>)
    requires
        is_component(name),
    ensures
        name != bulk_operand(),
        component_files(name).wf(),
{
    lemma_component_names_plain(name);
    if listed_generated_files(name).len() > 0 {
        if name == "account"@ {
            lemma_account_files_wf();
        } else if name == "balance"@ {
            lemma_balance_files_wf();
        } else if name == "charge"@ {
            lemma_charge_files_wf();
        } else if name == "checkout_session"@ {
            lemma_checkout_session_files_wf();
        } else if name == "customer"@ {
            lemma_customer_files_wf();
        } else if name == "payment_intent"@ {
            lemma_payment_intent_files_wf();
        } else if name == "payment_method"@ {
            lemma_payment_method_files_wf();
        } else if name == "product"@ {
            lemma_product_files_wf();
        }
    } else {
        lemma_conventional_files_wf(name);
    }
}

} // verus!
