//! Orders and their lines, and the order lifecycle status.

use vstd::prelude::*;
use crate::text::{ascii_lower, chars_of, lowers_to};
use crate::types::{ChatId, ItemId, OrderId, ProductId};

verus! {

/// Where an order stands.
#[derive(Debug, Clone, Copy, PartialEq, Eq, Structural)]
pub enum OrderStatus {
    Pending,
    Paid,
    Shipped,
    Delivered,
    Cancelled,
}

/// The name of a status, in small letters.
pub open spec fn status_name(s: OrderStatus) -> Seq<char> {
    match s {
        OrderStatus::Pending => "pending"@,
        OrderStatus::Paid => "paid"@,
        OrderStatus::Shipped => "shipped"@,
        OrderStatus::Delivered => "delivered"@,
        OrderStatus::Cancelled => "cancelled"@,
    }
}

/// The status that `s` names, whatever the case of its letters.
///
/// Names are compared after turning ASCII capitals into small letters. For the five
/// names this is the same as comparing after full Unicode lowercasing: the only
/// character outside ASCII whose lowercase is a single ASCII letter is the Kelvin sign,
/// which lowercases to `k`, a letter none of the names holds.
pub open spec fn status_named(s: Seq<char>) -> Option<OrderStatus> {
    let l = ascii_lower(s);
    if l == "pending"@ {
        Some(OrderStatus::Pending)
    } else if l == "paid"@ {
        Some(OrderStatus::Paid)
    } else if l == "shipped"@ {
        Some(OrderStatus::Shipped)
    } else if l == "delivered"@ {
        Some(OrderStatus::Delivered)
    } else if l == "cancelled"@ {
        Some(OrderStatus::Cancelled)
    } else {
        None
    }
}

/// The message of a refused status name.
pub open spec fn unknown_status_message(s: Seq<char>) -> Seq<char> {
    "Unknown order status: "@ + s
}

impl OrderStatus {
    /// The name of the status, in small letters.
    pub fn as_str(&self) -> (r: &'static str)
        ensures
            r@ == status_name(*self),
    {
        match self {
            OrderStatus::Pending => "pending",
            OrderStatus::Paid => "paid",
            OrderStatus::Shipped => "shipped",
            OrderStatus::Delivered => "delivered",
            OrderStatus::Cancelled => "cancelled",
        }
    }

    /// The name of the status, in small letters, as a new `String`.
    pub fn to_string(&self) -> (r: String)
        ensures
            r@ == status_name(*self),
    {
        String::from_str(self.as_str())
    }

    /// Reads a status name in any mix of capital and small letters; anything else is
    /// refused with a message that quotes it.
    pub fn from_str(s: &str) -> (r: Result<OrderStatus, String>)
        ensures
            match r {
                Ok(st) => status_named(s@) == Some(st),
                Err(msg) => status_named(s@) is None && msg@ == unknown_status_message(s@),
            },
    {
        let v = chars_of(s);
        if lowers_to(&v, "pending") {
            Ok(OrderStatus::Pending)
        } else if lowers_to(&v, "paid") {
            Ok(OrderStatus::Paid)
        } else if lowers_to(&v, "shipped") {
            Ok(OrderStatus::Shipped)
        } else if lowers_to(&v, "delivered") {
            Ok(OrderStatus::Delivered)
        } else if lowers_to(&v, "cancelled") {
            Ok(OrderStatus::Cancelled)
        } else {
            let mut msg = String::from_str("Unknown order status: ");
            msg.append(s);
            Err(msg)
        }
    }

    /// The status stored in a database row; a name that is not a status counts as
    /// pending.
    pub fn from_stored(s: &str) -> (r: OrderStatus)
        ensures
            r == (match status_named(s@) {
                Some(st) => st,
                None => OrderStatus::Pending,
            }),
    {
        match OrderStatus::from_str(s) {
            Ok(st) => st,
            Err(_) => OrderStatus::Pending,
        }
    }
}

/// A name made of small letters is its own lowercase.
proof fn lemma_lower_fixed(n: Seq<char>)
    requires
        forall|i: int| 0 <= i < n.len() ==> 'a' <= #[trigger] n[i] && n[i] <= 'z',
    ensures
        ascii_lower(n) == n,
{
    assert forall|i: int| 0 <= i < n.len() implies #[trigger] ascii_lower(n)[i] == n[i] by {
        let c = n[i];
        assert('a' <= c && c <= 'z');
    }
    assert(ascii_lower(n) =~= n);
}

/// Law: every status is read back from its own name.
pub proof fn law_status_name_round_trip(st: OrderStatus)
    ensures
        status_named(status_name(st)) == Some(st),
{
    reveal_strlit("pending");
    reveal_strlit("paid");
    reveal_strlit("shipped");
    reveal_strlit("delivered");
    reveal_strlit("cancelled");
    let n = status_name(st);
    lemma_lower_fixed(n);
    match st {
        OrderStatus::Pending => {},
        OrderStatus::Paid => {
            assert(n.len() != "pending"@.len());
        },
        OrderStatus::Shipped => {
            assert(n[0] != "pending"@[0]);
            assert(n.len() != "paid"@.len());
        },
        OrderStatus::Delivered => {
            assert(n.len() != "pending"@.len());
            assert(n.len() != "paid"@.len());
            assert(n.len() != "shipped"@.len());
        },
        OrderStatus::Cancelled => {
            assert(n.len() != "pending"@.len());
            assert(n.len() != "paid"@.len());
            assert(n.len() != "shipped"@.len());
            assert(n[0] != "delivered"@[0]);
        },
    }
}

/// An order of a customer.
#[derive(Debug, Clone, PartialEq, Eq)]
pub struct Order {
    pub order_id: OrderId,
    pub chat_id: ChatId,
    pub status: OrderStatus,
    pub delivery_address: Option<String>,
    pub total_amount: i32,
}

/// A line of an order: a product, how many, and the price it was sold at.
#[derive(Debug, Clone, PartialEq, Eq)]
pub struct OrderItem {
    pub item_id: ItemId,
    pub order_id: OrderId,
    pub product_id: ProductId,
    pub quantity: i32,
    pub price_at_sale: i32,
}

/// Law: a status is read back from every spelling of its name in capital letters, small
/// letters or any mix of them.
pub proof fn law_status_any_case(st: OrderStatus, spelling: Seq<char>)
    requires
        ascii_lower(spelling) == status_name(st),
    ensures
        status_named(spelling) == Some(st),
{
    law_status_name_round_trip(st);
    lemma_lower_fixed_name(st);
}

/// A status name is its own lowercase.
proof fn lemma_lower_fixed_name(st: OrderStatus)
    ensures
        ascii_lower(status_name(st)) == status_name(st),
{
    reveal_strlit("pending");
    reveal_strlit("paid");
    reveal_strlit("shipped");
    reveal_strlit("delivered");
    reveal_strlit("cancelled");
    lemma_lower_fixed(status_name(st));
}

} // verus!
