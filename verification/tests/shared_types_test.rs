use std::time::{Duration, Instant};
use telegram_bot_seller::types::{ChatId, ItemId, OrderId, ProductId};

#[test]
fn test_chat_id_display_and_creation() {
    let chat_id = ChatId::from(123456789i64);
    assert_eq!(chat_id.0, 123456789);
    assert_eq!(chat_id.to_string(), "123456789");
}

#[test]
fn test_product_id_display_and_creation() {
    let product_id = ProductId::from(100500i64);
    assert_eq!(product_id.0, 100500);
    assert_eq!(product_id.to_string(), "100500");
}

#[test]
fn test_item_id_display_and_creation() {
    let item_id = ItemId::from(8888i64);
    assert_eq!(item_id.0, 8888);
    assert_eq!(item_id.to_string(), "8888");
}

#[test]
fn test_order_id_generation_and_uniqueness() {
    let id1 = OrderId::generate();
    // Wait 2 milliseconds to guarantee distinct timestamp values
    let start = Instant::now();
    while start.elapsed() < Duration::from_millis(2) {}
    let id2 = OrderId::generate();

    assert_ne!(id1.0, id2.0);
    assert!(!id1.0.is_empty());

    // The format should be numeric since it comes from timestamp millis
    assert!(id1.0.chars().all(|c| c.is_ascii_digit()));
}

#[test]
fn test_negative_ids_display_with_sign() {
    assert_eq!(ChatId(-1001234567890).to_string(), "-1001234567890");
    assert_eq!(ChatId(i64::MIN).to_string(), "-9223372036854775808");
    assert_eq!(ProductId(0).to_string(), "0");
}

#[test]
fn test_order_id_from_millis_and_text() {
    assert_eq!(OrderId::from_millis(1778900618944).0, "1778900618944");
    assert_eq!(OrderId::from_millis(0).0, "0");
    let id = OrderId::from("1778900618944".to_string());
    assert_eq!(id.to_string(), "1778900618944");
}

#[test]
fn test_item_id_from_stored_text() {
    assert_eq!(ItemId::from_stored("42"), ItemId(42));
    assert_eq!(ItemId::from_stored("-7"), ItemId(-7));
    assert_eq!(ItemId::from_stored("+5"), ItemId(5));
    assert_eq!(ItemId::from_stored(" 42"), ItemId(0));
    assert_eq!(ItemId::from_stored("abc"), ItemId(0));
    assert_eq!(ItemId::from_stored("9223372036854775808"), ItemId(0));
}
