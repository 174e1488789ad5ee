//! The tool schema advertised to the model: which tools exist, what each does, and the
//! parameters each takes.

use vstd::prelude::*;
use super::tools::{tool_name_text, tool_named, law_tool_names_round_trip, ToolName};
use crate::orders::status_named;

verus! {

/// The kind of value a tool parameter takes.
#[derive(Debug, Clone, Copy, PartialEq, Eq, Structural)]
pub enum ParamType {
    /// A JSON integer.
    Integer,
    /// A JSON string.
    Text,
    /// A JSON string that must be one of the offered order statuses.
    StatusChoice,
    /// A JSON array of order lines, each with an integer `product_id`, `quantity` and
    /// `price_at_sale`, all required.
    OrderLines,
}

/// A parameter of a tool.
#[derive(Debug, Clone, PartialEq, Eq)]
pub struct ToolParam {
    pub name: &'static str,
    pub param_type: ParamType,
    pub description: Option<&'static str>,
}

/// A tool as advertised to the model.
#[derive(Debug, Clone, PartialEq, Eq)]
pub struct ToolDefinition {
    pub tool: ToolName,
    pub description: &'static str,
    pub params: Vec<ToolParam>,
    pub required: Vec<&'static str>,
}

/// The tools in the order they are advertised.
pub open spec fn advertised_tools() -> Seq<ToolName> {
    seq![ToolName::GetContacts, ToolName::UpdateContacts, ToolName::GetCatalog, ToolName::UpdateCatalog, ToolName::InsertOrder, ToolName::InsertOrderItems, ToolName::GetOrders, ToolName::GetOrderItems, ToolName::UpdateOrder, ToolName::UpdateOrderItems]
}

/// What a tool is advertised to do.
pub open spec fn tool_description(t: ToolName) -> Seq<char> {
    match t {
        ToolName::GetContacts => "Fetch user's current contact record details including delivery address and phone number."@,
        ToolName::UpdateContacts => "Create or update user's profile info (first name, phone, address, username, nickname)."@,
        ToolName::GetCatalog => "Fetch the full catalog of perfume products with stock levels, notes, tags, prices, sillage, season, etc."@,
        ToolName::UpdateCatalog => "Update product stock quantity levels directly."@,
        ToolName::InsertOrder => "Create a new perfume order. Returns the unique order_id which you MUST save to add order items subsequently."@,
        ToolName::InsertOrderItems => "Add multiple line items to a previously created order ID."@,
        ToolName::GetOrders => "Retrieve order history records associated with a specific user's chat ID."@,
        ToolName::GetOrderItems => "Retrieve all line item entries belonging to a given order ID."@,
        ToolName::UpdateOrder => "Update existing order fields (status, delivery address, or total amount)."@,
        ToolName::UpdateOrderItems => "Update details of a specific line item entry inside an order."@,
    }
}

/// The parameters of a tool: name, kind, and description when it has one.
pub open spec fn tool_params(t: ToolName) -> Seq<(Seq<char>, ParamType, Option<Seq<char>>)> {
    match t {
        ToolName::GetContacts => seq![("chat_id"@, ParamType::Integer, Some("The Telegram chat ID of the user."@))],
        ToolName::UpdateContacts => seq![("chat_id"@, ParamType::Integer, Some("The Telegram chat ID of the user."@)), ("first_name"@, ParamType::Text, None::<Seq<char>>), ("address"@, ParamType::Text, None::<Seq<char>>), ("phone_number"@, ParamType::Text, None::<Seq<char>>), ("username"@, ParamType::Text, None::<Seq<char>>), ("nickname"@, ParamType::Text, None::<Seq<char>>)],
        ToolName::GetCatalog => Seq::empty(),
        ToolName::UpdateCatalog => seq![("product_id"@, ParamType::Integer, None::<Seq<char>>), ("stock_quantity"@, ParamType::Integer, None::<Seq<char>>)],
        ToolName::InsertOrder => seq![("chat_id"@, ParamType::Integer, None::<Seq<char>>), ("status"@, ParamType::StatusChoice, None::<Seq<char>>), ("delivery_address"@, ParamType::Text, None::<Seq<char>>), ("total_amount"@, ParamType::Integer, None::<Seq<char>>)],
        ToolName::InsertOrderItems => seq![("order_id"@, ParamType::Text, None::<Seq<char>>), ("items"@, ParamType::OrderLines, None::<Seq<char>>)],
        ToolName::GetOrders => seq![("chat_id"@, ParamType::Integer, None::<Seq<char>>)],
        ToolName::GetOrderItems => seq![("order_id"@, ParamType::Text, None::<Seq<char>>)],
        ToolName::UpdateOrder => seq![("order_id"@, ParamType::Text, None::<Seq<char>>), ("status"@, ParamType::StatusChoice, None::<Seq<char>>), ("delivery_address"@, ParamType::Text, None::<Seq<char>>), ("total_amount"@, ParamType::Integer, None::<Seq<char>>)],
        ToolName::UpdateOrderItems => seq![("item_id"@, ParamType::Text, Some("The unique item_id (line entry ID)."@)), ("quantity"@, ParamType::Integer, None::<Seq<char>>), ("price_at_sale"@, ParamType::Integer, None::<Seq<char>>)],
    }
}

/// The parameters a call of a tool must give.
pub open spec fn tool_required(t: ToolName) -> Seq<Seq<char>> {
    match t {
        ToolName::GetContacts => seq!["chat_id"@],
        ToolName::UpdateContacts => seq!["chat_id"@],
        ToolName::GetCatalog => Seq::empty(),
        ToolName::UpdateCatalog => seq!["product_id"@, "stock_quantity"@],
        ToolName::InsertOrder => seq!["chat_id"@, "status"@, "total_amount"@],
        ToolName::InsertOrderItems => seq!["order_id"@, "items"@],
        ToolName::GetOrders => seq!["chat_id"@],
        ToolName::GetOrderItems => seq!["order_id"@],
        ToolName::UpdateOrder => seq!["order_id"@],
        ToolName::UpdateOrderItems => seq!["item_id"@],
    }
}

/// The order statuses the schema lets the model choose from.
pub open spec fn offered_statuses() -> Seq<Seq<char>> {
    seq!["pending"@, "paid"@, "shipped"@, "cancelled"@]
}

/// The fields of each order line, all integers and all required.
pub open spec fn order_line_fields() -> Seq<Seq<char>> {
    seq!["product_id"@, "quantity"@, "price_at_sale"@]
}

/// A parameter as the table lists it.
pub open spec fn param_matches(p: ToolParam, spec: (Seq<char>, ParamType, Option<Seq<char>>)) -> bool {
    &&& p.name@ == spec.0
    &&& p.param_type == spec.1
    &&& match p.description {
        Some(d) => spec.2 == Some(d@),
        None => spec.2 is None,
    }
}

/// A definition advertises `t` as the tables give it.
pub open spec fn defines(d: ToolDefinition, t: ToolName) -> bool {
    &&& d.tool == t
    &&& d.description@ == tool_description(t)
    &&& d.params@.len() == tool_params(t).len()
    &&& forall|j: int| 0 <= j < d.params@.len() ==> param_matches(#[trigger] d.params@[j], tool_params(t)[j])
    &&& d.required@.len() == tool_required(t).len()
    &&& forall|j: int| 0 <= j < d.required@.len() ==> (#[trigger] d.required@[j])@ == tool_required(t)[j]
}

fn param(name: &'static str, param_type: ParamType) -> (r: ToolParam)
    ensures
        r.name == name,
        r.param_type == param_type,
        r.description is None,
{
    ToolParam { name, param_type, description: None }
}

fn described(name: &'static str, param_type: ParamType, description: &'static str) -> (r: ToolParam)
    ensures
        r.name == name,
        r.param_type == param_type,
        r.description == Some(description),
{
    ToolParam { name, param_type, description: Some(description) }
}

fn define_get_contacts() -> (d: ToolDefinition)
    ensures
        defines(d, ToolName::GetContacts),
{
    let mut params: Vec<ToolParam> = Vec::new();
    params.push(described("chat_id", ParamType::Integer, "The Telegram chat ID of the user."));
    let mut required: Vec<&'static str> = Vec::new();
    required.push("chat_id");
    let d = ToolDefinition {
        tool: ToolName::GetContacts,
        description: "Fetch user's current contact record details including delivery address and phone number.",
        params,
        required,
    };
    assert(d.params@ =~= d.params@);
    d
}

fn define_update_contacts() -> (d: ToolDefinition)
    ensures
        defines(d, ToolName::UpdateContacts),
{
    let mut params: Vec<ToolParam> = Vec::new();
    params.push(described("chat_id", ParamType::Integer, "The Telegram chat ID of the user."));
    params.push(param("first_name", ParamType::Text));
    params.push(param("address", ParamType::Text));
    params.push(param("phone_number", ParamType::Text));
    params.push(param("username", ParamType::Text));
    params.push(param("nickname", ParamType::Text));
    let mut required: Vec<&'static str> = Vec::new();
    required.push("chat_id");
    let d = ToolDefinition {
        tool: ToolName::UpdateContacts,
        description: "Create or update user's profile info (first name, phone, address, username, nickname).",
        params,
        required,
    };
    assert(d.params@ =~= d.params@);
    d
}

fn define_get_catalog() -> (d: ToolDefinition)
    ensures
        defines(d, ToolName::GetCatalog),
{
    let mut params: Vec<ToolParam> = Vec::new();
    let mut required: Vec<&'static str> = Vec::new();
    let d = ToolDefinition {
        tool: ToolName::GetCatalog,
        description: "Fetch the full catalog of perfume products with stock levels, notes, tags, prices, sillage, season, etc.",
        params,
        required,
    };
    assert(d.params@ =~= d.params@);
    d
}

fn define_update_catalog() -> (d: ToolDefinition)
    ensures
        defines(d, ToolName::UpdateCatalog),
{
    let mut params: Vec<ToolParam> = Vec::new();
    params.push(param("product_id", ParamType::Integer));
    params.push(param("stock_quantity", ParamType::Integer));
    let mut required: Vec<&'static str> = Vec::new();
    required.push("product_id");
    required.push("stock_quantity");
    let d = ToolDefinition {
        tool: ToolName::UpdateCatalog,
        description: "Update product stock quantity levels directly.",
        params,
        required,
    };
    assert(d.params@ =~= d.params@);
    d
}

fn define_insert_order() -> (d: ToolDefinition)
    ensures
        defines(d, ToolName::InsertOrder),
{
    let mut params: Vec<ToolParam> = Vec::new();
    params.push(param("chat_id", ParamType::Integer));
    params.push(param("status", ParamType::StatusChoice));
    params.push(param("delivery_address", ParamType::Text));
    params.push(param("total_amount", ParamType::Integer));
    let mut required: Vec<&'static str> = Vec::new();
    required.push("chat_id");
    required.push("status");
    required.push("total_amount");
    let d = ToolDefinition {
        tool: ToolName::InsertOrder,
        description: "Create a new perfume order. Returns the unique order_id which you MUST save to add order items subsequently.",
        params,
        required,
    };
    assert(d.params@ =~= d.params@);
    d
}

fn define_insert_order_items() -> (d: ToolDefinition)
    ensures
        defines(d, ToolName::InsertOrderItems),
{
    let mut params: Vec<ToolParam> = Vec::new();
    params.push(param("order_id", ParamType::Text));
    params.push(param("items", ParamType::OrderLines));
    let mut required: Vec<&'static str> = Vec::new();
    required.push("order_id");
    required.push("items");
    let d = ToolDefinition {
        tool: ToolName::InsertOrderItems,
        description: "Add multiple line items to a previously created order ID.",
        params,
        required,
    };
    assert(d.params@ =~= d.params@);
    d
}

fn define_get_orders() -> (d: ToolDefinition)
    ensures
        defines(d, ToolName::GetOrders),
{
    let mut params: Vec<ToolParam> = Vec::new();
    params.push(param("chat_id", ParamType::Integer));
    let mut required: Vec<&'static str> = Vec::new();
    required.push("chat_id");
    let d = ToolDefinition {
        tool: ToolName::GetOrders,
        description: "Retrieve order history records associated with a specific user's chat ID.",
        params,
        required,
    };
    assert(d.params@ =~= d.params@);
    d
}

fn define_get_order_items() -> (d: ToolDefinition)
    ensures
        defines(d, ToolName::GetOrderItems),
{
    let mut params: Vec<ToolParam> = Vec::new();
    params.push(param("order_id", ParamType::Text));
    let mut required: Vec<&'static str> = Vec::new();
    required.push("order_id");
    let d = ToolDefinition {
        tool: ToolName::GetOrderItems,
        description: "Retrieve all line item entries belonging to a given order ID.",
        params,
        required,
    };
    assert(d.params@ =~= d.params@);
    d
}

fn define_update_order() -> (d: ToolDefinition)
    ensures
        defines(d, ToolName::UpdateOrder),
{
    let mut params: Vec<ToolParam> = Vec::new();
    params.push(param("order_id", ParamType::Text));
    params.push(param("status", ParamType::StatusChoice));
    params.push(param("delivery_address", ParamType::Text));
    params.push(param("total_amount", ParamType::Integer));
    let mut required: Vec<&'static str> = Vec::new();
    required.push("order_id");
    let d = ToolDefinition {
        tool: ToolName::UpdateOrder,
        description: "Update existing order fields (status, delivery address, or total amount).",
        params,
        required,
    };
    assert(d.params@ =~= d.params@);
    d
}

fn define_update_order_items() -> (d: ToolDefinition)
    ensures
        defines(d, ToolName::UpdateOrderItems),
{
    let mut params: Vec<ToolParam> = Vec::new();
    params.push(described("item_id", ParamType::Text, "The unique item_id (line entry ID)."));
    params.push(param("quantity", ParamType::Integer));
    params.push(param("price_at_sale", ParamType::Integer));
    let mut required: Vec<&'static str> = Vec::new();
    required.push("item_id");
    let d = ToolDefinition {
        tool: ToolName::UpdateOrderItems,
        description: "Update details of a specific line item entry inside an order.",
        params,
        required,
    };
    assert(d.params@ =~= d.params@);
    d
}

/// The tools advertised to the model, in order, each with its description, its
/// parameters and the parameters a call must give.
pub fn tool_definitions() -> (r: Vec<ToolDefinition>)
    ensures
        r.len() == advertised_tools().len(),
        forall|i: int| 0 <= i < r.len() ==> defines(#[trigger] r@[i], advertised_tools()[i]),
{
    let mut r: Vec<ToolDefinition> = Vec::new();
    r.push(define_get_contacts());
    r.push(define_update_contacts());
    r.push(define_get_catalog());
    r.push(define_update_catalog());
    r.push(define_insert_order());
    r.push(define_insert_order_items());
    r.push(define_get_orders());
    r.push(define_get_order_items());
    r.push(define_update_order());
    r.push(define_update_order_items());
    r
}

/// The order statuses the model may choose from, in the advertised order.
pub fn status_choices() -> (r: Vec<&'static str>)
    ensures
        r.len() == offered_statuses().len(),
        forall|i: int| 0 <= i < r.len() ==> (#[trigger] r@[i])@ == offered_statuses()[i],
{
    vec!["pending", "paid", "shipped", "cancelled"]
}

/// The fields of each order line, in the advertised order.
pub fn line_fields() -> (r: Vec<&'static str>)
    ensures
        r.len() == order_line_fields().len(),
        forall|i: int| 0 <= i < r.len() ==> (#[trigger] r@[i])@ == order_line_fields()[i],
{
    vec!["product_id", "quantity", "price_at_sale"]
}

/// Law: the schema advertises every tool exactly once, and every advertised name is
/// one the dispatcher knows.
pub proof fn law_schema_covers_tools(t: ToolName)
    ensures
        exists|i: int| 0 <= i < advertised_tools().len() && advertised_tools()[i] == t,
        forall|i: int, j: int|
            0 <= i < j < advertised_tools().len() ==> advertised_tools()[i] != advertised_tools()[j],
        tool_named(tool_name_text(t)) == Some(t),
{
    law_tool_names_round_trip(t);
    let a = advertised_tools();
    match t {
        ToolName::GetContacts => { assert(a[0] == t); },
        ToolName::UpdateContacts => { assert(a[1] == t); },
        ToolName::GetCatalog => { assert(a[2] == t); },
        ToolName::UpdateCatalog => { assert(a[3] == t); },
        ToolName::InsertOrder => { assert(a[4] == t); },
        ToolName::InsertOrderItems => { assert(a[5] == t); },
        ToolName::GetOrders => { assert(a[6] == t); },
        ToolName::GetOrderItems => { assert(a[7] == t); },
        ToolName::UpdateOrder => { assert(a[8] == t); },
        ToolName::UpdateOrderItems => { assert(a[9] == t); },
    }
}

/// Law: every parameter a tool requires is one of its parameters.
pub proof fn law_required_are_parameters(t: ToolName, k: int)
    requires
        0 <= k < tool_required(t).len(),
    ensures
        exists|j: int| 0 <= j < tool_params(t).len() && (#[trigger] tool_params(t)[j]).0 == tool_required(t)[k],
{
    match t {
        ToolName::GetContacts => { if k == 0 { assert(tool_params(t)[0].0 == tool_required(t)[k]); } },
        ToolName::UpdateContacts => { if k == 0 { assert(tool_params(t)[0].0 == tool_required(t)[k]); } },
        ToolName::GetCatalog => {  },
        ToolName::UpdateCatalog => { if k == 0 { assert(tool_params(t)[0].0 == tool_required(t)[k]); } else if k == 1 { assert(tool_params(t)[1].0 == tool_required(t)[k]); } },
        ToolName::InsertOrder => { if k == 0 { assert(tool_params(t)[0].0 == tool_required(t)[k]); } else if k == 1 { assert(tool_params(t)[1].0 == tool_required(t)[k]); } else if k == 2 { assert(tool_params(t)[3].0 == tool_required(t)[k]); } },
        ToolName::InsertOrderItems => { if k == 0 { assert(tool_params(t)[0].0 == tool_required(t)[k]); } else if k == 1 { assert(tool_params(t)[1].0 == tool_required(t)[k]); } },
        ToolName::GetOrders => { if k == 0 { assert(tool_params(t)[0].0 == tool_required(t)[k]); } },
        ToolName::GetOrderItems => { if k == 0 { assert(tool_params(t)[0].0 == tool_required(t)[k]); } },
        ToolName::UpdateOrder => { if k == 0 { assert(tool_params(t)[0].0 == tool_required(t)[k]); } },
        ToolName::UpdateOrderItems => { if k == 0 { assert(tool_params(t)[0].0 == tool_required(t)[k]); } },
    }
}

/// Law: every status the schema offers the model is one that the order tools accept.
pub proof fn law_offered_statuses_accepted(i: int)
    requires
        0 <= i < offered_statuses().len(),
    ensures
        status_named(offered_statuses()[i]) is Some,
{
    crate::orders::law_status_name_round_trip(crate::orders::OrderStatus::Pending);
    crate::orders::law_status_name_round_trip(crate::orders::OrderStatus::Paid);
    crate::orders::law_status_name_round_trip(crate::orders::OrderStatus::Shipped);
    crate::orders::law_status_name_round_trip(crate::orders::OrderStatus::Cancelled);
}

} // verus!
