//! Parameter types that stand for a value or for a named alternative.

use vstd::prelude::*;
use crate::sdk::types::Timestamp;

verus! {

/// A version of the API.
#[derive(Copy, Clone, Debug, Eq, PartialEq)]
pub enum ApiVersion {
    V2025_03_31,
}

impl ApiVersion {
    /// The name of the version as the API writes it.
    pub fn as_str(self) -> (name: &'static str)
        ensures
            name@ == "2025-03-31.basil"@,
    {
        match self {
            ApiVersion::V2025_03_31 => "2025-03-31.basil",
        }
    }
}

/// A delay in days, or the smallest delay there is.
#[derive(Copy, Clone, Debug, Eq, PartialEq)]
pub enum DelayDays {
    Days(u32),
    Other(DelayDaysOther),
}

/// The alternatives to a number of days.
#[derive(Copy, Clone, Debug, Eq, PartialEq)]
pub enum DelayDaysOther {
    Minimum,
}

impl DelayDays {
    /// A delay of `n` days.
    pub fn days(n: u32) -> (r: DelayDays)
        ensures
            r == DelayDays::Days(n),
    {
        DelayDays::Days(n)
    }

    /// The smallest delay.
    pub fn minimum() -> (r: DelayDays)
        ensures
            r == DelayDays::Other(DelayDaysOther::Minimum),
    {
        DelayDays::Other(DelayDaysOther::Minimum)
    }
}

/// A point in time, or now.
#[derive(Copy, Clone, Debug, Eq, PartialEq)]
pub enum Scheduled {
    Timestamp(Timestamp),
    Other(ScheduledOther),
}

/// The alternatives to a point in time.
#[derive(Copy, Clone, Debug, Eq, PartialEq)]
pub enum ScheduledOther {
    Now,
}

impl Scheduled {
    /// The point in time `ts`.
    pub fn at(ts: Timestamp) -> (r: Scheduled)
        ensures
            r == Scheduled::Timestamp(ts),
    {
        Scheduled::Timestamp(ts)
    }

    /// Now.
    pub fn now() -> (r: Scheduled)
        ensures
            r == Scheduled::Other(ScheduledOther::Now),
    {
        Scheduled::Other(ScheduledOther::Now)
    }
}

/// An upper bound, or none.
#[derive(Copy, Clone, Debug, Eq, PartialEq)]
pub enum UpTo {
    Max(u64),
    Other(UpToOther),
}

/// The alternatives to an upper bound.
#[derive(Copy, Clone, Debug, Eq, PartialEq)]
pub enum UpToOther {
    Inf,
}

impl UpTo {
    /// The upper bound `n`.
    pub fn max(n: u64) -> (r: UpTo)
        ensures
            r == UpTo::Max(n),
    {
        UpTo::Max(n)
    }

    /// No upper bound.
    pub fn now() -> (r: UpTo)
        ensures
            r == UpTo::Other(UpToOther::Inf),
    {
        UpTo::Other(UpToOther::Inf)
    }
}

/// Whether a payment is made off session, or how often.
#[derive(Copy, Clone, Debug, Eq, PartialEq)]
pub enum PaymentIntentOffSession {
    Exists(bool),
    Other(OffSessionOther),
}

/// How often a payment is made off session.
#[derive(Copy, Clone, Debug, Eq, PartialEq)]
pub enum OffSessionOther {
    OneOff,
    Recurring,
}

impl PaymentIntentOffSession {
    /// Off session or not, as `n` says.
    pub fn with_exists(n: bool) -> (r: PaymentIntentOffSession)
        ensures
            r == PaymentIntentOffSession::Exists(n),
    {
        PaymentIntentOffSession::Exists(n)
    }

    /// Off session, as often as `n` says.
    pub fn frequency(n: OffSessionOther) -> (r: PaymentIntentOffSession)
        ensures
            r == PaymentIntentOffSession::Other(n),
    {
        match n {
            OffSessionOther::OneOff => PaymentIntentOffSession::Other(OffSessionOther::OneOff),
            OffSessionOther::Recurring => PaymentIntentOffSession::Other(
                OffSessionOther::Recurring,
            ),
        }
    }
}

} // verus!
