use telegram_bot_seller::ai::tools::{
    merge_contact, merge_item_update, merge_order_update, new_order, next_item_id, order_lines, parse_item_id, parse_status_arg,
    InsertOrderArgs, InsertOrderItemsArgs, OrderItemArg, ToolName, UpdateContactsArgs, UpdateOrderArgs,
};
use telegram_bot_seller::contacts::Contact;
use telegram_bot_seller::error::AppError;
use telegram_bot_seller::orders::{Order, OrderItem, OrderStatus};
use telegram_bot_seller::types::{ChatId, ItemId, OrderId, ProductId};

#[test]
fn test_update_contacts_merges_fields() {
    let args = UpdateContactsArgs {
        chat_id: 12345,
        first_name: Some("Alice".to_string()),
        address: None,
        phone_number: Some("+79998887766".to_string()),
        username: None,
        nickname: None,
    };
    let fresh = merge_contact(args.clone(), None);
    assert_eq!(fresh.chat_id, ChatId(12345));
    assert_eq!(fresh.first_name.as_deref(), Some("Alice"));
    assert_eq!(fresh.phone_number.as_deref(), Some("+79998887766"));
    assert_eq!(fresh.address, None);

    let existing = Contact {
        chat_id: ChatId(12345),
        first_name: Some("Old".to_string()),
        address: Some("Moscow".to_string()),
        phone_number: None,
        username: Some("alice".to_string()),
        nickname: Some("Ali".to_string()),
    };
    let merged = merge_contact(args, Some(existing));
    assert_eq!(merged.first_name.as_deref(), Some("Alice"));
    assert_eq!(merged.address.as_deref(), Some("Moscow"));
    assert_eq!(merged.username.as_deref(), Some("alice"));
    assert_eq!(merged.nickname.as_deref(), Some("Ali"));
}

#[test]
fn test_order_status_arguments() {
    assert_eq!(parse_status_arg("PAID"), Ok(OrderStatus::Paid));
    assert_eq!(parse_status_arg("Delivered"), Ok(OrderStatus::Delivered));
    assert_eq!(
        parse_status_arg("lost"),
        Err(AppError::Validation("Unknown order status: lost".to_string()))
    );
    assert_eq!(OrderStatus::from_str("cancelled"), Ok(OrderStatus::Cancelled));
    assert_eq!(OrderStatus::Shipped.to_string(), "shipped");
    assert_eq!(OrderStatus::from_stored("weird"), OrderStatus::Pending);
    assert_eq!(OrderStatus::from_stored("paid"), OrderStatus::Paid);
}

#[test]
fn test_new_order_and_lines() {
    let args = InsertOrderArgs {
        chat_id: 7,
        status: "pending".to_string(),
        delivery_address: Some("Seoul".to_string()),
        total_amount: 26000,
    };
    let order = new_order(args.clone(), OrderId("1778900618944".to_string())).unwrap();
    assert_eq!(order.order_id, OrderId("1778900618944".to_string()));
    assert_eq!(order.chat_id, ChatId(7));
    assert_eq!(order.status, OrderStatus::Pending);
    assert_eq!(order.total_amount, 26000);
    let mut bad = args;
    bad.status = "unknown".to_string();
    assert_eq!(
        new_order(bad, OrderId("1".to_string())),
        Err(AppError::Validation("Unknown order status: unknown".to_string()))
    );

    let items = InsertOrderItemsArgs {
        order_id: "1778900618944".to_string(),
        items: vec![
            OrderItemArg { product_id: 10001, quantity: 1, price_at_sale: 15000 },
            OrderItemArg { product_id: 10003, quantity: 2, price_at_sale: 11000 },
        ],
    };
    let lines = order_lines(&items, &vec![501, 502]);
    assert_eq!(lines.len(), 2);
    assert_eq!(lines[1].item_id, ItemId(502));
    assert_eq!(lines[1].order_id, OrderId("1778900618944".to_string()));
    assert_eq!(lines[1].product_id, ProductId(10003));
    assert_eq!(lines[1].quantity, 2);
    assert_eq!(lines[1].price_at_sale, 11000);
}

#[test]
fn test_order_and_item_updates() {
    let existing = Order {
        order_id: OrderId("9".to_string()),
        chat_id: ChatId(1),
        status: OrderStatus::Paid,
        delivery_address: Some("Old street".to_string()),
        total_amount: 500,
    };
    let changes = merge_order_update(
        UpdateOrderArgs { order_id: "9".to_string(), status: None, delivery_address: None, total_amount: Some(700) },
        existing.clone(),
    )
    .unwrap();
    assert_eq!(changes.status, OrderStatus::Paid);
    assert_eq!(changes.delivery_address.as_deref(), Some("Old street"));
    assert_eq!(changes.total_amount, 700);
    let changes = merge_order_update(
        UpdateOrderArgs {
            order_id: "9".to_string(),
            status: Some("shipped".to_string()),
            delivery_address: Some("New".to_string()),
            total_amount: None,
        },
        existing.clone(),
    )
    .unwrap();
    assert_eq!(changes.status, OrderStatus::Shipped);
    assert_eq!(changes.delivery_address.as_deref(), Some("New"));
    assert_eq!(changes.total_amount, 500);
    assert!(merge_order_update(
        UpdateOrderArgs { order_id: "9".to_string(), status: Some("gone".to_string()), delivery_address: None, total_amount: None },
        existing,
    )
    .is_err());

    assert_eq!(parse_item_id("501"), Ok(ItemId(501)));
    assert_eq!(parse_item_id("x1"), Err(AppError::Validation("item_id must be an integer".to_string())));
    let item = OrderItem {
        item_id: ItemId(501),
        order_id: OrderId("9".to_string()),
        product_id: ProductId(10001),
        quantity: 1,
        price_at_sale: 15000,
    };
    assert_eq!(merge_item_update(Some(3), None, &item), (3, 15000));
    assert_eq!(merge_item_update(None, Some(14000), &item), (1, 14000));
}

#[test]
fn test_tool_success_messages() {
    assert_eq!(ToolName::UpdateContacts.success_message(), Some("Contact updated successfully"));
    assert_eq!(ToolName::UpdateCatalog.success_message(), Some("Catalog stock updated successfully"));
    assert_eq!(ToolName::InsertOrderItems.success_message(), Some("Order items added successfully"));
    assert_eq!(ToolName::UpdateOrder.success_message(), Some("Order updated successfully"));
    assert_eq!(ToolName::UpdateOrderItems.success_message(), Some("Order item updated successfully"));
    assert_eq!(ToolName::GetCatalog.success_message(), None);
    assert_eq!(ToolName::InsertOrder.success_message(), None);
}

#[test]
fn test_next_item_id() {
    assert_eq!(next_item_id(None, 1_700_000_000_000_000), Some(1_700_000_000_000_000));
    assert_eq!(next_item_id(Some(5), 9), Some(9));
    assert_eq!(next_item_id(Some(9), 9), Some(10));
    assert_eq!(next_item_id(Some(12), 9), Some(13));
    assert_eq!(next_item_id(None, u128::MAX), Some(i64::MAX));
    assert_eq!(next_item_id(Some(i64::MAX), u128::MAX), None);
}

#[test]
fn test_order_status_round_trip_any_case() {
    let all = [
        OrderStatus::Pending,
        OrderStatus::Paid,
        OrderStatus::Shipped,
        OrderStatus::Delivered,
        OrderStatus::Cancelled,
    ];
    for s in all {
        let name = s.to_string();
        assert_eq!(OrderStatus::from_str(&name), Ok(s));
        assert_eq!(OrderStatus::from_str(&name.to_uppercase()), Ok(s));
    }
    assert_eq!(OrderStatus::from_str("sHiPpEd"), Ok(OrderStatus::Shipped));
}
