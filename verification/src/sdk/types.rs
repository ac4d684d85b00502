//! Types common to the whole API.

use vstd::prelude::*;
use std::collections::HashMap;

verus! {

/// The key-value pairs attached to an object.
pub type Metadata = HashMap<String, String>;

/// The identifier of a resource.
#[derive(Debug, Clone, PartialEq, Eq, Hash)]
pub struct Id(pub String);

impl Id {
    /// The identifier that holds `id`.
    pub fn new(id: String) -> (r: Id)
        ensures
            r.0 == id,
    {
        Id(id)
    }

    /// The text of the identifier.
    pub fn as_str(&self) -> (s: &str)
        ensures
            s@ == self.0@,
    {
        self.0.as_str()
    }
}

impl From<String> for Id {
    fn from(id: String) -> (r: Id) {
        Id(id)
    }
}

impl vstd::std_specs::convert::FromSpecImpl<String> for Id {
    open spec fn obeys_from_spec() -> bool {
        true
    }

    open spec fn from_spec(id: String) -> Id {
        Id(id)
    }
}

/// One page of a list of objects.
#[derive(Debug, Clone)]
pub struct List<T> {
    /// The URL of the list.
    pub url: String,
    /// Whether more items follow this page.
    pub has_more: bool,
    /// The items of this page.
    pub data: Vec<T>,
    /// The number of all items, where it is known.
    pub total_count: Option<u64>,
}

impl<T> List<T> {
    /// The empty list.
    pub fn new() -> (list: List<T>)
        ensures
            list.url@.len() == 0,
            !list.has_more,
            list.data@.len() == 0,
            list.total_count is None,
    {
        List { url: String::new(), has_more: false, data: Vec::new(), total_count: None }
    }

    /// The number of items on this page.
    pub fn len(&self) -> (n: usize)
        ensures
            n == self.data@.len(),
    {
        self.data.len()
    }

    /// Whether this page holds no item.
    pub fn is_empty(&self) -> (r: bool)
        ensures
            r == (self.data@.len() == 0),
    {
        self.data.len() == 0
    }
}

impl<T> Default for List<T> {
    fn default() -> (list: List<T>)
        ensures
            list.url@.len() == 0,
            !list.has_more,
            list.data@.len() == 0,
            list.total_count is None,
    {
        List::new()
    }
}

/// A point in time, in seconds since the Unix epoch.
#[derive(Debug, Clone, Copy, PartialEq, Eq, PartialOrd, Ord)]
pub struct Timestamp(pub i64);

impl Timestamp {
    /// The point in time `timestamp` seconds after the epoch.
    pub fn new(timestamp: i64) -> (r: Timestamp)
        ensures
            r.0 == timestamp,
    {
        Timestamp(timestamp)
    }

    /// The seconds since the epoch.
    pub fn as_i64(&self) -> (r: i64)
        ensures
            r == self.0,
    {
        self.0
    }
}

impl From<i64> for Timestamp {
    fn from(timestamp: i64) -> (r: Timestamp) {
        Timestamp(timestamp)
    }
}

impl vstd::std_specs::convert::FromSpecImpl<i64> for Timestamp {
    open spec fn obeys_from_spec() -> bool {
        true
    }

    open spec fn from_spec(timestamp: i64) -> Timestamp {
        Timestamp(timestamp)
    }
}

/// A currency.
#[derive(Debug, Clone, Copy, PartialEq, Eq, Hash)]
pub enum Currency {
    /// United States dollar.
    Usd,
    /// Euro.
    Eur,
    /// British pound.
    Gbp,
    /// Japanese yen.
    Jpy,
    /// Canadian dollar.
    Cad,
    /// Australian dollar.
    Aud,
    /// Swiss franc.
    Chf,
    /// Chinese yuan.
    Cny,
    /// Hong Kong dollar.
    Hkd,
    /// New Zealand dollar.
    Nzd,
    /// Mexican peso.
    Mxn,
    /// Singapore dollar.
    Sgd,
    /// Swedish krona.
    Sek,
    /// Danish krone.
    Dkk,
    /// Norwegian krone.
    Nok,
    /// Any other currency.
    Other,
}

} // verus!
