//! Strongly typed identifiers: chats, orders, products and order lines.

use std::time::{Duration, SystemTime, UNIX_EPOCH};
use vstd::prelude::*;
use crate::numbers::{decimal, law_decimal_injective, format_i64, format_u128, parse_i64, parse_integer, signed_decimal};
use crate::rate_limiter::duration_nanos;
use crate::text::chars_of;

verus! {

/// A Telegram chat.
#[derive(Debug, Clone, Copy, PartialEq, Eq, Hash, Structural)]
pub struct ChatId(pub i64);

/// An order, named by the moment it was created.
#[derive(Debug, Clone, PartialEq, Eq, Hash)]
pub struct OrderId(pub String);

/// A catalog product.
#[derive(Debug, Clone, Copy, PartialEq, Eq, Hash, Structural)]
pub struct ProductId(pub i64);

/// A line of an order.
#[derive(Debug, Clone, Copy, PartialEq, Eq, Hash, Structural)]
pub struct ItemId(pub i64);

impl From<i64> for ChatId {
    fn from(val: i64) -> (r: Self) {
        ChatId(val)
    }
}

impl vstd::std_specs::convert::FromSpecImpl<i64> for ChatId {
    open spec fn obeys_from_spec() -> bool {
        true
    }

    open spec fn from_spec(val: i64) -> Self {
        ChatId(val)
    }
}

impl From<i64> for ProductId {
    fn from(val: i64) -> (r: Self) {
        ProductId(val)
    }
}

impl vstd::std_specs::convert::FromSpecImpl<i64> for ProductId {
    open spec fn obeys_from_spec() -> bool {
        true
    }

    open spec fn from_spec(val: i64) -> Self {
        ProductId(val)
    }
}

impl From<i64> for ItemId {
    fn from(val: i64) -> (r: Self) {
        ItemId(val)
    }
}

impl vstd::std_specs::convert::FromSpecImpl<i64> for ItemId {
    open spec fn obeys_from_spec() -> bool {
        true
    }

    open spec fn from_spec(val: i64) -> Self {
        ItemId(val)
    }
}

impl From<String> for OrderId {
    fn from(val: String) -> (r: Self) {
        OrderId(val)
    }
}

impl vstd::std_specs::convert::FromSpecImpl<String> for OrderId {
    open spec fn obeys_from_spec() -> bool {
        true
    }

    open spec fn from_spec(val: String) -> Self {
        OrderId(val)
    }
}

impl ChatId {
    /// The chat number in base ten.
    pub fn to_string(&self) -> (s: String)
        ensures
            s@ == signed_decimal(self.0 as int),
    {
        format_i64(self.0)
    }
}

impl ProductId {
    /// The product number in base ten.
    pub fn to_string(&self) -> (s: String)
        ensures
            s@ == signed_decimal(self.0 as int),
    {
        format_i64(self.0)
    }
}

impl ItemId {
    /// The line number in base ten.
    pub fn to_string(&self) -> (s: String)
        ensures
            s@ == signed_decimal(self.0 as int),
    {
        format_i64(self.0)
    }

    /// The line identifier as the tables page reads it back from its stored text: the
    /// text read as a 64-bit integer, or zero when it is not one.
    pub fn from_stored(text: &str) -> (r: ItemId)
        ensures
            r.0 as int == match parse_integer(text@, i64::MIN as int, i64::MAX as int) {
                Some(v) => v,
                None => 0,
            },
    {
        match parse_i64(&chars_of(text)) {
            Some(v) => ItemId(v),
            None => ItemId(0),
        }
    }
}

/// `std::time::SystemTime`, carried through opaquely.
#[verifier::external_type_specification]
#[verifier::external_body]
pub struct ExSystemTime(SystemTime);

/// Reads the wall clock (`SystemTime::now`). Nothing is promised of the value.
#[verifier::external_body]
fn system_time_now() -> SystemTime {
    SystemTime::now()
}

/// The time elapsed from the Unix epoch to `t`, or the zero duration when `t` lies
/// before it (`SystemTime::duration_since`, its error replaced by the default duration).
/// Nothing is stated of the duration, which the clock gave.
#[verifier::external_body]
fn since_unix_epoch(t: &SystemTime) -> Duration {
    t.duration_since(UNIX_EPOCH).unwrap_or_default()
}

/// Whole milliseconds of a duration (`Duration::as_millis`): its whole nanoseconds
/// (`Duration::as_nanos`) divided by a million, rounded down.
#[verifier::external_body]
fn duration_as_millis(d: &Duration) -> (r: u128)
    ensures
        r == duration_nanos(*d) / 1_000_000,
{
    d.as_millis()
}

/// The whole milliseconds a duration spans.
pub open spec fn whole_millis(d: Duration) -> nat {
    (duration_nanos(d) / 1_000_000) as nat
}

impl OrderId {
    /// The text of the order identifier.
    pub fn to_string(&self) -> (s: String)
        ensures
            s@ == self.0@,
    {
        self.0.clone()
    }

    /// The identifier of an order created `millis` milliseconds after the Unix epoch:
    /// the number in base ten.
    pub fn from_millis(millis: u128) -> (r: Self)
        ensures
            r.0@ == decimal(millis as nat),
    {
        OrderId(format_u128(millis))
    }

    /// A fresh identifier: the current Unix time in milliseconds, in base ten (zero when
    /// the clock stands before the epoch). The identifier is the whole milliseconds of the
    /// duration the clock reading gave, written out in full.
    pub fn generate() -> (r: Self)
        ensures
            exists|millis: nat| r.0@ == decimal(millis),
            exists|elapsed: Duration| r.0@ == decimal(#[trigger] whole_millis(elapsed)),
    {
        let now = system_time_now();
        let elapsed = since_unix_epoch(&now);
        let millis: u128 = duration_as_millis(&elapsed);
        let r = Self::from_millis(millis);
        assert(r.0@ == decimal(whole_millis(elapsed)));
        r
    }
}

/// Law: orders created at different whole milliseconds get different identifiers.
pub proof fn law_order_ids_distinct(a: u128, b: u128)
    ensures
        a != b ==> decimal(a as nat) != decimal(b as nat),
{
    if decimal(a as nat) == decimal(b as nat) {
        law_decimal_injective(a as nat, b as nat);
    }
}

/// Law: two clock readings that differ in whole milliseconds give different identifiers.
pub proof fn law_generated_ids_follow_the_clock(d1: Duration, d2: Duration)
    ensures
        whole_millis(d1) != whole_millis(d2) ==> decimal(whole_millis(d1)) != decimal(whole_millis(d2)),
{
    if decimal(whole_millis(d1)) == decimal(whole_millis(d2)) {
        law_decimal_injective(whole_millis(d1), whole_millis(d2));
    }
}

} // verus!
