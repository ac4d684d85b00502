//! The URLs of the requests that the client sends.
//!
//! A request goes to the base URL of the API followed by the path of a
//! collection, of one object in it, or of an action on one object. A list
//! request carries its filters as a query: `key=value` pairs joined by `&`
//! behind a `?`, in a fixed order, and no `?` where no filter is set. Values
//! go into the query as they are given.

use vstd::prelude::*;
use vstd::string::*;
use crate::order::names_of;
use crate::text::{decimal, decimal_chars, string_of};

verus! {

/// The pairs of a query joined by `&`.
pub open spec fn joined(params: Seq<Seq<char>>) -> Seq<char>
    decreases params.len(),
{
    if params.len() == 0 {
        seq![]
    } else if params.len() == 1 {
        params[0]
    } else {
        joined(params.drop_last()).push('&') + params.last()
    }
}

/// `url` followed by the query that `params` make; `url` itself where
/// there are none.
pub open spec fn with_query(url: Seq<char>, params: Seq<Seq<char>>) -> Seq<char> {
    if params.len() == 0 {
        url
    } else {
        url.push('?') + joined(params)
    }
}

/// The pair `key=value`.
pub open spec fn pair(key: Seq<char>, value: Seq<char>) -> Seq<char> {
    key.push('=') + value
}

/// The pair for a filter that may be unset: one pair, or none.
pub open spec fn optional(key: Seq<char>, value: Option<Seq<char>>) -> Seq<Seq<char>> {
    match value {
        Some(v) => seq![pair(key, v)],
        None => seq![],
    }
}

/// How a number stands in a query: in decimal.
pub open spec fn number_text(n: Option<u32>) -> Option<Seq<char>> {
    match n {
        Some(n) => Some(decimal(n as nat)),
        None => None,
    }
}

/// How a flag stands in a query: `true` or `false`.
pub open spec fn flag_text(b: Option<bool>) -> Option<Seq<char>> {
    match b {
        Some(true) => Some("true"@),
        Some(false) => Some("false"@),
        None => None,
    }
}

/// How a text stands in a query: as it is.
pub open spec fn given_text(s: Option<&str>) -> Option<Seq<char>> {
    match s {
        Some(s) => Some(s@),
        None => None,
    }
}

/// The URL of a collection: the base and the collection's path.
pub open spec fn collection_url_spec(base: Seq<char>, collection: Seq<char>) -> Seq<char> {
    base.push('/') + collection
}

/// The URL of a collection.
pub fn collection_url(base: &str, collection: &str) -> (url: String)
    ensures
        url@ == collection_url_spec(base@, collection@),
{
    let mut url = String::from_str(base);
    url.append("/");
    url.append(collection);
    proof {
        reveal_strlit("/");
        assert("/"@ =~= seq!['/']);
        assert(url@ =~= collection_url_spec(base@, collection@));
    }
    url
}

/// The URL of the object `id` in a collection.
pub fn object_url(base: &str, collection: &str, id: &str) -> (url: String)
    ensures
        url@ == collection_url_spec(base@, collection@).push('/') + id@,
{
    let mut url = collection_url(base, collection);
    url.append("/");
    url.append(id);
    proof {
        reveal_strlit("/");
        assert("/"@ =~= seq!['/']);
        assert(url@ =~= collection_url_spec(base@, collection@).push('/') + id@);
    }
    url
}

/// The URL of the action `action` on the object `id` in a collection.
pub fn action_url(base: &str, collection: &str, id: &str, action: &str) -> (url: String)
    ensures
        url@ == (collection_url_spec(base@, collection@).push('/') + id@).push('/') + action@,
{
    let mut url = object_url(base, collection, id);
    url.append("/");
    url.append(action);
    proof {
        reveal_strlit("/");
        assert("/"@ =~= seq!['/']);
        assert(url@ =~= (collection_url_spec(base@, collection@).push('/') + id@).push('/')
            + action@);
    }
    url
}

/// Adds the pair `key=value` to `params` where a value is given.
fn push_optional(params: &mut Vec<String>, key: &str, value: Option<String>)
    ensures
        names_of(final(params)@) == names_of(old(params)@) + optional(
            key@,
            match value {
                Some(v) => Some(v@),
                None => None,
            },
        ),
{
    let ghost before = names_of(params@);
    match value {
        Some(v) => {
            let mut text = String::from_str(key);
            text.append("=");
            text.append(v.as_str());
            proof {
                reveal_strlit("=");
                assert("="@ =~= seq!['=']);
                assert(text@ =~= pair(key@, v@));
            }
            params.push(text);
            proof {
                assert(names_of(params@) =~= before + seq![pair(key@, v@)]);
            }
        },
        None => {
            proof {
                assert(names_of(params@) =~= before + Seq::<Seq<char>>::empty());
            }
        },
    }
}

/// A number as it stands in a query.
fn number(n: Option<u32>) -> (text: Option<String>)
    ensures
        (match text {
            Some(t) => Some(t@),
            None => None,
        }) == number_text(n),
{
    match n {
        Some(n) => Some(string_of(&decimal_chars(n as usize))),
        None => None,
    }
}

/// A flag as it stands in a query.
fn flag(b: Option<bool>) -> (text: Option<String>)
    ensures
        (match text {
            Some(t) => Some(t@),
            None => None,
        }) == flag_text(b),
{
    match b {
        Some(true) => Some(String::from_str("true")),
        Some(false) => Some(String::from_str("false")),
        None => None,
    }
}

/// A text as it stands in a query.
fn given(s: Option<&str>) -> (text: Option<String>)
    ensures
        (match text {
            Some(t) => Some(t@),
            None => None,
        }) == given_text(s),
{
    match s {
        Some(s) => Some(String::from_str(s)),
        None => None,
    }
}

/// `url` followed by the query that `params` make.
pub fn query_url(url: String, params: &Vec<String>) -> (full: String)
    ensures
        full@ == with_query(url@, names_of(params@)),
{
    if params.len() == 0 {
        return url;
    }
    let ghost all = names_of(params@);
    let mut full = url;
    full.append("?");
    full.append(params[0].as_str());
    let mut i: usize = 1;
    proof {
        reveal_strlit("?");
        assert("?"@ =~= seq!['?']);
        assert(all.subrange(0, 1) =~= seq![all[0]]);
        assert(full@ =~= url@.push('?') + joined(all.subrange(0, 1)));
    }
    while i < params.len()
        invariant
            1 <= i <= params.len(),
            all == names_of(params@),
            full@ == url@.push('?') + joined(all.subrange(0, i as int)),
        decreases params.len() - i,
    {
        full.append("&");
        full.append(params[i].as_str());
        proof {
            reveal_strlit("&");
            assert("&"@ =~= seq!['&']);
            let upto = all.subrange(0, i + 1);
            assert(upto.drop_last() =~= all.subrange(0, i as int));
            assert(upto.last() == params@[i as int]@);
            assert(full@ =~= url@.push('?') + joined(upto));
        }
        i += 1;
    }
    proof {
        assert(all.subrange(0, params@.len() as int) =~= all);
    }
    full
}

/// The URL that lists customers: filtered by `limit`, `email`,
/// `starting_after` and `ending_before`, in this order.
pub fn list_customers_url(
    base: &str,
    limit: Option<u32>,
    email: Option<&str>,
    starting_after: Option<&str>,
    ending_before: Option<&str>,
) -> (url: String)
    ensures
        url@ == with_query(
            collection_url_spec(base@, "customers"@),
            optional("limit"@, number_text(limit)) + optional("email"@, given_text(email))
                + optional("starting_after"@, given_text(starting_after)) + optional(
                "ending_before"@,
                given_text(ending_before),
            ),
        ),
{
    let mut params: Vec<String> = Vec::new();
    push_optional(&mut params, "limit", number(limit));
    push_optional(&mut params, "email", given(email));
    push_optional(&mut params, "starting_after", given(starting_after));
    push_optional(&mut params, "ending_before", given(ending_before));
    proof {
        assert(names_of(params@) =~= optional("limit"@, number_text(limit)) + optional(
            "email"@,
            given_text(email),
        ) + optional("starting_after"@, given_text(starting_after)) + optional(
            "ending_before"@,
            given_text(ending_before),
        ));
    }
    query_url(collection_url(base, "customers"), &params)
}

/// The URL that searches customers by `query`, with `limit` and `page`
/// behind it, in this order.
pub fn search_customers_url(base: &str, query: &str, limit: Option<u32>, page: Option<&str>) -> (url:
    String)
    ensures
        url@ == with_query(
            collection_url_spec(base@, "customers/search"@),
            seq![pair("query"@, query@)] + optional("limit"@, number_text(limit)) + optional(
                "page"@,
                given_text(page),
            ),
        ),
{
    let mut params: Vec<String> = Vec::new();
    push_optional(&mut params, "query", Some(String::from_str(query)));
    push_optional(&mut params, "limit", number(limit));
    push_optional(&mut params, "page", given(page));
    proof {
        assert(names_of(params@) =~= seq![pair("query"@, query@)] + optional(
            "limit"@,
            number_text(limit),
        ) + optional("page"@, given_text(page)));
    }
    query_url(collection_url(base, "customers/search"), &params)
}

/// The URL that lists charges: filtered by `limit` and `customer`, in
/// this order.
pub fn list_charges_url(base: &str, limit: Option<u32>, customer: Option<&str>) -> (url: String)
    ensures
        url@ == with_query(
            collection_url_spec(base@, "charges"@),
            optional("limit"@, number_text(limit)) + optional("customer"@, given_text(customer)),
        ),
{
    let mut params: Vec<String> = Vec::new();
    push_optional(&mut params, "limit", number(limit));
    push_optional(&mut params, "customer", given(customer));
    proof {
        assert(names_of(params@) =~= optional("limit"@, number_text(limit)) + optional(
            "customer"@,
            given_text(customer),
        ));
    }
    query_url(collection_url(base, "charges"), &params)
}

/// The URL that lists prices: filtered by `limit`, `active` and
/// `product`, in this order.
pub fn list_prices_url(
    base: &str,
    limit: Option<u32>,
    active: Option<bool>,
    product: Option<&str>,
) -> (url: String)
    ensures
        url@ == with_query(
            collection_url_spec(base@, "prices"@),
            optional("limit"@, number_text(limit)) + optional("active"@, flag_text(active))
                + optional("product"@, given_text(product)),
        ),
{
    let mut params: Vec<String> = Vec::new();
    push_optional(&mut params, "limit", number(limit));
    push_optional(&mut params, "active", flag(active));
    push_optional(&mut params, "product", given(product));
    proof {
        assert(names_of(params@) =~= optional("limit"@, number_text(limit)) + optional(
            "active"@,
            flag_text(active),
        ) + optional("product"@, given_text(product)));
    }
    query_url(collection_url(base, "prices"), &params)
}

/// The URL that lists products: filtered by `limit` and `active`, in this
/// order.
pub fn list_products_url(base: &str, limit: Option<u32>, active: Option<bool>) -> (url: String)
    ensures
        url@ == with_query(
            collection_url_spec(base@, "products"@),
            optional("limit"@, number_text(limit)) + optional("active"@, flag_text(active)),
        ),
{
    let mut params: Vec<String> = Vec::new();
    push_optional(&mut params, "limit", number(limit));
    push_optional(&mut params, "active", flag(active));
    proof {
        assert(names_of(params@) =~= optional("limit"@, number_text(limit)) + optional(
            "active"@,
            flag_text(active),
        ));
    }
    query_url(collection_url(base, "products"), &params)
}

/// The URL that lists refunds: filtered by `limit` and `charge`, in this
/// order.
pub fn list_refunds_url(base: &str, limit: Option<u32>, charge: Option<&str>) -> (url: String)
    ensures
        url@ == with_query(
            collection_url_spec(base@, "refunds"@),
            optional("limit"@, number_text(limit)) + optional("charge"@, given_text(charge)),
        ),
{
    let mut params: Vec<String> = Vec::new();
    push_optional(&mut params, "limit", number(limit));
    push_optional(&mut params, "charge", given(charge));
    proof {
        assert(names_of(params@) =~= optional("limit"@, number_text(limit)) + optional(
            "charge"@,
            given_text(charge),
        ));
    }
    query_url(collection_url(base, "refunds"), &params)
}

} // verus!
