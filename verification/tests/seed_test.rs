use telegram_bot_seller::seed::{seed_media, seed_products, seed_settings, should_seed};
use telegram_bot_seller::types::ProductId;

#[test]
fn test_seed_only_empty_catalog() {
    assert!(should_seed(0));
    assert!(!should_seed(1));
    assert!(!should_seed(3));
}

#[test]
fn test_seed_products_listing() {
    let products = seed_products();
    assert_eq!(products.len(), 3);
    assert_eq!(products[0].product_id, ProductId(10001));
    assert_eq!(products[0].product_name, "Creed Aventus");
    assert_eq!(products[0].standard_price, 15000);
    assert_eq!(products[0].stock_quantity, 50);
    assert_eq!(products[1].product_name, "Bleu de Chanel");
    assert_eq!(products[1].suitable_season.as_deref(), Some("Any Season"));
    assert_eq!(products[2].product_name, "Dior Sauvage");
    assert_eq!(products[2].sillage.as_deref(), Some("Heavy"));
}

#[test]
fn test_seed_settings_and_media() {
    assert_eq!(seed_settings(), vec![("bot_status", "active"), ("ai_mode", "autonomous")]);
    let media = seed_media();
    assert_eq!(media.id, None);
    assert_eq!(media.file_path, "./assets/creed_aventus.jpg");
    assert_eq!(media.purpose, "product_showcase");
    assert!(media.is_allowed_for_ai);
}
