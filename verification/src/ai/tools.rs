//! The database tools the sales assistant may call: their names, their arguments, the
//! schema advertised to the model, and the rules that turn a call into records.

use vstd::prelude::*;
use crate::contacts::Contact;
use crate::error::AppError;
use crate::numbers::{parse_i64, parse_integer};
use crate::orders::{status_named, unknown_status_message, Order, OrderItem, OrderStatus};
use crate::text::{chars_of, same_text};
use crate::types::{ChatId, ItemId, OrderId, ProductId};

verus! {

/// A tool the assistant may call.
#[derive(Debug, Clone, Copy, PartialEq, Eq, Structural)]
pub enum ToolName {
    GetContacts,
    UpdateContacts,
    GetCatalog,
    UpdateCatalog,
    InsertOrder,
    InsertOrderItems,
    GetOrders,
    GetOrderItems,
    UpdateOrder,
    UpdateOrderItems,
}

/// The name a tool is called by.
pub open spec fn tool_name_text(t: ToolName) -> Seq<char> {
    match t {
        ToolName::GetContacts => "get_contacts"@,
        ToolName::UpdateContacts => "update_contacts"@,
        ToolName::GetCatalog => "get_catalog"@,
        ToolName::UpdateCatalog => "update_catalog"@,
        ToolName::InsertOrder => "insert_order"@,
        ToolName::InsertOrderItems => "insert_order_items"@,
        ToolName::GetOrders => "get_orders"@,
        ToolName::GetOrderItems => "get_order_items"@,
        ToolName::UpdateOrder => "update_order"@,
        ToolName::UpdateOrderItems => "update_order_items"@,
    }
}

/// The tool a name calls, if any.
pub open spec fn tool_named(s: Seq<char>) -> Option<ToolName> {
    if s == "get_contacts"@ {
        Some(ToolName::GetContacts)
    } else if s == "update_contacts"@ {
        Some(ToolName::UpdateContacts)
    } else if s == "get_catalog"@ {
        Some(ToolName::GetCatalog)
    } else if s == "update_catalog"@ {
        Some(ToolName::UpdateCatalog)
    } else if s == "insert_order"@ {
        Some(ToolName::InsertOrder)
    } else if s == "insert_order_items"@ {
        Some(ToolName::InsertOrderItems)
    } else if s == "get_orders"@ {
        Some(ToolName::GetOrders)
    } else if s == "get_order_items"@ {
        Some(ToolName::GetOrderItems)
    } else if s == "update_order"@ {
        Some(ToolName::UpdateOrder)
    } else if s == "update_order_items"@ {
        Some(ToolName::UpdateOrderItems)
    } else {
        None
    }
}

impl ToolName {
    /// The name the tool is called by.
    pub fn as_str(&self) -> (r: &'static str)
        ensures
            r@ == tool_name_text(*self),
    {
        match self {
            ToolName::GetContacts => "get_contacts",
            ToolName::UpdateContacts => "update_contacts",
            ToolName::GetCatalog => "get_catalog",
            ToolName::UpdateCatalog => "update_catalog",
            ToolName::InsertOrder => "insert_order",
            ToolName::InsertOrderItems => "insert_order_items",
            ToolName::GetOrders => "get_orders",
            ToolName::GetOrderItems => "get_order_items",
            ToolName::UpdateOrder => "update_order",
            ToolName::UpdateOrderItems => "update_order_items",
        }
    }

    /// The tool that `name` calls, if any; names are matched exactly.
    pub fn parse(name: &str) -> (r: Option<ToolName>)
        ensures
            r == tool_named(name@),
    {
        if same_text(name, "get_contacts") {
            Some(ToolName::GetContacts)
        } else if same_text(name, "update_contacts") {
            Some(ToolName::UpdateContacts)
        } else if same_text(name, "get_catalog") {
            Some(ToolName::GetCatalog)
        } else if same_text(name, "update_catalog") {
            Some(ToolName::UpdateCatalog)
        } else if same_text(name, "insert_order") {
            Some(ToolName::InsertOrder)
        } else if same_text(name, "insert_order_items") {
            Some(ToolName::InsertOrderItems)
        } else if same_text(name, "get_orders") {
            Some(ToolName::GetOrders)
        } else if same_text(name, "get_order_items") {
            Some(ToolName::GetOrderItems)
        } else if same_text(name, "update_order") {
            Some(ToolName::UpdateOrder)
        } else if same_text(name, "update_order_items") {
            Some(ToolName::UpdateOrderItems)
        } else {
            None
        }
    }
}

/// The tool a call names, or the error an unknown name is answered with.
pub fn resolve_tool(name: &str) -> (r: Result<ToolName, AppError>)
    ensures
        match tool_named(name@) {
            Some(t) => r == Ok::<ToolName, AppError>(t),
            None => r matches Err(AppError::UnknownTool(n)) && n@ == name@,
        },
{
    match ToolName::parse(name) {
        Some(t) => Ok(t),
        None => Err(AppError::UnknownTool(String::from_str(name))),
    }
}

/// Law: every tool is called by its own name, and no two tools share one.
pub proof fn law_tool_names_round_trip(t: ToolName)
    ensures
        tool_named(tool_name_text(t)) == Some(t),
{
    reveal_strlit("get_contacts");
    reveal_strlit("update_contacts");
    reveal_strlit("get_catalog");
    reveal_strlit("update_catalog");
    reveal_strlit("insert_order");
    reveal_strlit("insert_order_items");
    reveal_strlit("get_orders");
    reveal_strlit("get_order_items");
    reveal_strlit("update_order");
    reveal_strlit("update_order_items");
    let n = tool_name_text(t);
    match t {
        ToolName::GetContacts => {},
        ToolName::UpdateContacts => {
            assert(n[0] != "get_contacts"@[0]);
        },
        ToolName::GetCatalog => {
            assert(n[5] != "get_contacts"@[5]);
            assert(n[0] != "update_contacts"@[0]);
        },
        ToolName::UpdateCatalog => {
            assert(n[0] != "get_contacts"@[0]);
            assert(n.len() != "update_contacts"@.len());
            assert(n[0] != "get_catalog"@[0]);
        },
        ToolName::InsertOrder => {
            assert(n[0] != "get_contacts"@[0]);
            assert(n[0] != "update_contacts"@[0]);
            assert(n[0] != "get_catalog"@[0]);
            assert(n[0] != "update_catalog"@[0]);
        },
        ToolName::InsertOrderItems => {
            assert(n[0] != "get_contacts"@[0]);
            assert(n[0] != "update_contacts"@[0]);
            assert(n[0] != "get_catalog"@[0]);
            assert(n[0] != "update_catalog"@[0]);
            assert(n.len() != "insert_order"@.len());
        },
        ToolName::GetOrders => {
            assert(n[4] != "get_contacts"@[4]);
            assert(n[0] != "update_contacts"@[0]);
            assert(n[4] != "get_catalog"@[4]);
            assert(n[0] != "update_catalog"@[0]);
            assert(n[0] != "insert_order"@[0]);
            assert(n[0] != "insert_order_items"@[0]);
        },
        ToolName::GetOrderItems => {
            assert(n[4] != "get_contacts"@[4]);
            assert(n[0] != "update_contacts"@[0]);
            assert(n[4] != "get_catalog"@[4]);
            assert(n[0] != "update_catalog"@[0]);
            assert(n[0] != "insert_order"@[0]);
            assert(n[0] != "insert_order_items"@[0]);
            assert(n.len() != "get_orders"@.len());
        },
        ToolName::UpdateOrder => {
            assert(n[0] != "get_contacts"@[0]);
            assert(n.len() != "update_contacts"@.len());
            assert(n[0] != "get_catalog"@[0]);
            assert(n.len() != "update_catalog"@.len());
            assert(n[0] != "insert_order"@[0]);
            assert(n[0] != "insert_order_items"@[0]);
            assert(n[0] != "get_orders"@[0]);
            assert(n[0] != "get_order_items"@[0]);
        },
        ToolName::UpdateOrderItems => {
            assert(n[0] != "get_contacts"@[0]);
            assert(n.len() != "update_contacts"@.len());
            assert(n[0] != "get_catalog"@[0]);
            assert(n.len() != "update_catalog"@.len());
            assert(n[0] != "insert_order"@[0]);
            assert(n[0] != "insert_order_items"@[0]);
            assert(n[0] != "get_orders"@[0]);
            assert(n[0] != "get_order_items"@[0]);
            assert(n.len() != "update_order"@.len());
        },
    }
}

/// The message a successful call of a tool that changes records reports; the tools
/// that read records report what they read instead, and `insert_order` reports the new
/// order's identifier.
pub open spec fn tool_success_message(t: ToolName) -> Option<Seq<char>> {
    match t {
        ToolName::UpdateContacts => Some("Contact updated successfully"@),
        ToolName::UpdateCatalog => Some("Catalog stock updated successfully"@),
        ToolName::InsertOrderItems => Some("Order items added successfully"@),
        ToolName::UpdateOrder => Some("Order updated successfully"@),
        ToolName::UpdateOrderItems => Some("Order item updated successfully"@),
        _ => None,
    }
}

impl ToolName {
    /// The message a successful call of the tool reports, for the tools that change
    /// records and report no data.
    pub fn success_message(&self) -> (r: Option<&'static str>)
        ensures
            match r {
                Some(m) => tool_success_message(*self) == Some(m@),
                None => tool_success_message(*self) is None,
            },
    {
        match self {
            ToolName::UpdateContacts => Some("Contact updated successfully"),
            ToolName::UpdateCatalog => Some("Catalog stock updated successfully"),
            ToolName::InsertOrderItems => Some("Order items added successfully"),
            ToolName::UpdateOrder => Some("Order updated successfully"),
            ToolName::UpdateOrderItems => Some("Order item updated successfully"),
            _ => None,
        }
    }
}

/// Arguments of `get_contacts`.
#[derive(Debug, Clone, PartialEq, Eq, Structural)]
pub struct GetContactsArgs {
    pub chat_id: i64,
}

/// Arguments of `update_contacts`: the fields to set; the others keep their value.
#[derive(Debug, Clone, PartialEq, Eq)]
pub struct UpdateContactsArgs {
    pub chat_id: i64,
    pub first_name: Option<String>,
    pub address: Option<String>,
    pub phone_number: Option<String>,
    pub username: Option<String>,
    pub nickname: Option<String>,
}

/// Arguments of `update_catalog`.
#[derive(Debug, Clone, PartialEq, Eq, Structural)]
pub struct UpdateCatalogArgs {
    pub product_id: i64,
    pub stock_quantity: i32,
}

/// Arguments of `insert_order`.
#[derive(Debug, Clone, PartialEq, Eq)]
pub struct InsertOrderArgs {
    pub chat_id: i64,
    pub status: String,
    pub delivery_address: Option<String>,
    pub total_amount: i32,
}

/// One line of `insert_order_items`.
#[derive(Debug, Clone, PartialEq, Eq, Structural)]
pub struct OrderItemArg {
    pub product_id: i64,
    pub quantity: i32,
    pub price_at_sale: i32,
}

/// Arguments of `insert_order_items`.
#[derive(Debug, Clone, PartialEq, Eq)]
pub struct InsertOrderItemsArgs {
    pub order_id: String,
    pub items: Vec<OrderItemArg>,
}

/// Arguments of `get_orders`.
#[derive(Debug, Clone, PartialEq, Eq, Structural)]
pub struct GetOrdersArgs {
    pub chat_id: i64,
}

/// Arguments of `get_order_items`.
#[derive(Debug, Clone, PartialEq, Eq)]
pub struct GetOrderItemsArgs {
    pub order_id: String,
}

/// Arguments of `update_order`: the fields to set; the others keep their value.
#[derive(Debug, Clone, PartialEq, Eq)]
pub struct UpdateOrderArgs {
    pub order_id: String,
    pub status: Option<String>,
    pub delivery_address: Option<String>,
    pub total_amount: Option<i32>,
}

/// Arguments of `update_order_items`: the fields to set; the others keep their value.
#[derive(Debug, Clone, PartialEq, Eq)]
pub struct UpdateOrderItemsArgs {
    pub item_id: String,
    pub quantity: Option<i32>,
    pub price_at_sale: Option<i32>,
}

/// The new value of a field: the one given, else the one stored.
pub open spec fn given_or(given: Option<String>, stored: Option<String>) -> Option<String> {
    match given {
        Some(v) => Some(v),
        None => stored,
    }
}

/// A stored field of a contact, if there is a contact.
pub open spec fn stored_field(existing: Option<Contact>, f: spec_fn(Contact) -> Option<String>) -> Option<String> {
    match existing {
        Some(c) => f(c),
        None => None,
    }
}

/// The contact `update_contacts` saves: each field the call gives, else the one the
/// customer's record holds.
pub fn merge_contact(args: UpdateContactsArgs, existing: Option<Contact>) -> (r: Contact)
    ensures
        r.chat_id == ChatId(args.chat_id),
        r.first_name == given_or(args.first_name, stored_field(existing, |c: Contact| c.first_name)),
        r.address == given_or(args.address, stored_field(existing, |c: Contact| c.address)),
        r.phone_number == given_or(args.phone_number, stored_field(existing, |c: Contact| c.phone_number)),
        r.username == given_or(args.username, stored_field(existing, |c: Contact| c.username)),
        r.nickname == given_or(args.nickname, stored_field(existing, |c: Contact| c.nickname)),
{
    let (first_name, address, phone_number, username, nickname) = match existing {
        Some(c) => (c.first_name, c.address, c.phone_number, c.username, c.nickname),
        None => (None, None, None, None, None),
    };
    Contact {
        chat_id: ChatId(args.chat_id),
        first_name: match args.first_name {
            Some(v) => Some(v),
            None => first_name,
        },
        address: match args.address {
            Some(v) => Some(v),
            None => address,
        },
        phone_number: match args.phone_number {
            Some(v) => Some(v),
            None => phone_number,
        },
        username: match args.username {
            Some(v) => Some(v),
            None => username,
        },
        nickname: match args.nickname {
            Some(v) => Some(v),
            None => nickname,
        },
    }
}

/// A status name read for a tool call: the status, or a validation error quoting it.
pub fn parse_status_arg(s: &str) -> (r: Result<OrderStatus, AppError>)
    ensures
        match status_named(s@) {
            Some(st) => r == Ok::<OrderStatus, AppError>(st),
            None => r matches Err(AppError::Validation(m)) && m@ == unknown_status_message(s@),
        },
{
    match OrderStatus::from_str(s) {
        Ok(st) => Ok(st),
        Err(m) => Err(AppError::Validation(m)),
    }
}

/// The order `insert_order` creates under the identifier `order_id`.
pub fn new_order(args: InsertOrderArgs, order_id: OrderId) -> (r: Result<Order, AppError>)
    ensures
        match status_named(args.status@) {
            Some(st) => r matches Ok(o) && o.order_id == order_id && o.chat_id == ChatId(args.chat_id)
                && o.status == st && o.delivery_address == args.delivery_address && o.total_amount
                == args.total_amount,
            None => r matches Err(AppError::Validation(m)) && m@ == unknown_status_message(args.status@),
        },
{
    let status = parse_status_arg(args.status.as_str())?;
    Ok(Order {
        order_id,
        chat_id: ChatId(args.chat_id),
        status,
        delivery_address: args.delivery_address,
        total_amount: args.total_amount,
    })
}

/// The lines `insert_order_items` records: line `i` gets the identifier `item_ids[i]`
/// and belongs to the order the call names.
pub fn order_lines(args: &InsertOrderItemsArgs, item_ids: &Vec<i64>) -> (r: Vec<OrderItem>)
    requires
        item_ids.len() == args.items.len(),
    ensures
        r.len() == args.items.len(),
        forall|i: int|
            0 <= i < r.len() ==> {
                &&& (#[trigger] r@[i]).item_id == ItemId(item_ids@[i])
                &&& r@[i].order_id.0@ == args.order_id@
                &&& r@[i].product_id == ProductId(args.items@[i].product_id)
                &&& r@[i].quantity == args.items@[i].quantity
                &&& r@[i].price_at_sale == args.items@[i].price_at_sale
            },
{
    let mut r: Vec<OrderItem> = Vec::new();
    let mut i: usize = 0;
    while i < args.items.len()
        invariant
            i <= args.items.len(),
            item_ids.len() == args.items.len(),
            r.len() == i,
            forall|k: int|
                0 <= k < i ==> {
                    &&& (#[trigger] r@[k]).item_id == ItemId(item_ids@[k])
                    &&& r@[k].order_id.0@ == args.order_id@
                    &&& r@[k].product_id == ProductId(args.items@[k].product_id)
                    &&& r@[k].quantity == args.items@[k].quantity
                    &&& r@[k].price_at_sale == args.items@[k].price_at_sale
                },
        decreases args.items.len() - i,
    {
        let line = &args.items[i];
        r.push(OrderItem {
            item_id: ItemId(item_ids[i]),
            order_id: OrderId(args.order_id.clone()),
            product_id: ProductId(line.product_id),
            quantity: line.quantity,
            price_at_sale: line.price_at_sale,
        });
        i += 1;
    }
    r
}

/// A clock reading in microseconds, capped at `i64::MAX`.
pub open spec fn capped_micros(micros: u128) -> i64 {
    if micros > i64::MAX as int {
        i64::MAX
    } else {
        micros as i64
    }
}

/// The identifier that follows `previous` for a clock `reading`: the reading when it is
/// past `previous`, else one more than `previous`, if there is such a number.
pub open spec fn next_item_id_of(previous: Option<i64>, reading: i64) -> Option<i64> {
    match previous {
        Some(p) => if reading > p {
            Some(reading)
        } else if p < i64::MAX {
            Some((p + 1) as i64)
        } else {
            None
        },
        None => Some(reading),
    }
}

/// The identifier of the next line `insert_order_items` records, from the clock read in
/// microseconds since the Unix epoch: that reading (capped at `i64::MAX`), moved just
/// past the identifier of the previous line of the same call when the clock has not
/// advanced beyond it; `None` when no identifier is left above the previous one.
pub fn next_item_id(previous: Option<i64>, micros: u128) -> (r: Option<i64>)
    ensures
        r == next_item_id_of(previous, capped_micros(micros)),
        r matches Some(id) ==> (previous matches Some(p) ==> p < id),
{
    let reading: i64 = if micros > 9223372036854775807u128 {
        9223372036854775807i64
    } else {
        micros as i64
    };
    match previous {
        Some(p) => {
            if reading > p {
                Some(reading)
            } else if p < 9223372036854775807i64 {
                Some(p + 1)
            } else {
                None
            }
        },
        None => Some(reading),
    }
}

/// The values `update_order` writes to an order.
#[derive(Debug, Clone, PartialEq, Eq)]
pub struct OrderChanges {
    pub status: OrderStatus,
    pub delivery_address: Option<String>,
    pub total_amount: i32,
}

/// The values `update_order` writes: each field the call gives, else the stored one; a
/// status that is not a status name is refused.
pub fn merge_order_update(args: UpdateOrderArgs, existing: Order) -> (r: Result<OrderChanges, AppError>)
    ensures
        match args.status {
            Some(s) => match status_named(s@) {
                Some(st) => r matches Ok(c) && c.status == st,
                None => r matches Err(AppError::Validation(m)) && m@ == unknown_status_message(s@),
            },
            None => r matches Ok(c) && c.status == existing.status,
        },
        r matches Ok(c) ==> c.delivery_address == given_or(args.delivery_address, existing.delivery_address)
            && c.total_amount == (match args.total_amount {
            Some(t) => t,
            None => existing.total_amount,
        }),
{
    let status = match &args.status {
        Some(s) => parse_status_arg(s.as_str())?,
        None => existing.status,
    };
    let delivery_address = match args.delivery_address {
        Some(a) => Some(a),
        None => existing.delivery_address,
    };
    let total_amount = match args.total_amount {
        Some(t) => t,
        None => existing.total_amount,
    };
    Ok(OrderChanges { status, delivery_address, total_amount })
}

/// The line identifier an `update_order_items` call names; it must read as a 64-bit
/// integer.
pub fn parse_item_id(s: &str) -> (r: Result<ItemId, AppError>)
    ensures
        match parse_integer(s@, i64::MIN as int, i64::MAX as int) {
            Some(v) => r matches Ok(id) && id.0 == v,
            None => r matches Err(AppError::Validation(m)) && m@ == "item_id must be an integer"@,
        },
{
    match parse_i64(&chars_of(s)) {
        Some(v) => Ok(ItemId(v)),
        None => Err(AppError::Validation(String::from_str("item_id must be an integer"))),
    }
}

/// The quantity and price `update_order_items` writes: each the call gives, else the
/// stored one.
pub fn merge_item_update(quantity: Option<i32>, price_at_sale: Option<i32>, existing: &OrderItem) -> (r: (i32, i32))
    ensures
        r.0 == (match quantity {
            Some(q) => q,
            None => existing.quantity,
        }),
        r.1 == (match price_at_sale {
            Some(p) => p,
            None => existing.price_at_sale,
        }),
{
    let q = match quantity {
        Some(q) => q,
        None => existing.quantity,
    };
    let p = match price_at_sale {
        Some(p) => p,
        None => existing.price_at_sale,
    };
    (q, p)
}

} // verus!
