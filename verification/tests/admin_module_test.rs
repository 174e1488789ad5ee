use base64::engine::general_purpose::STANDARD;
use base64::Engine;
use telegram_bot_seller::admin::{
    active_tab, backup_path, backup_statement, bot_status_label, clean_field, health_status, order_highlights,
    required_id, table_done_redirect, table_error_redirect, theme_or_default, BasicAuth, RecentOrder,
    AUTH_CHALLENGE, UNAUTHORIZED_BODY,
};

#[test]
fn test_basic_auth_missing_credentials() {
    assert!(BasicAuth::from_header(None).is_none(), "Authentication should fail when Authorization header is missing");
    assert_eq!(AUTH_CHALLENGE, "Basic realm=\"Admin Panel\", charset=\"UTF-8\"");
    assert_eq!(UNAUTHORIZED_BODY, "401 Unauthorized - Admin authorization required.");
}

#[test]
fn test_basic_auth_invalid_credentials() {
    // Encoding "admin:wrongpassword"
    let encoded = STANDARD.encode("admin:wrongpassword");
    let header = format!("Basic {}", encoded);
    assert!(BasicAuth::from_header(Some(header.as_str())).is_none(), "Authentication should fail with incorrect password");
}

#[test]
fn test_basic_auth_correct_credentials() {
    // Encoding "admin:admin123"
    let encoded = STANDARD.encode("admin:admin123");
    let header = format!("Basic {}", encoded);
    assert!(BasicAuth::from_header(Some(header.as_str())).is_some(), "Authentication should succeed with correct credentials");
}

#[test]
fn test_basic_auth_edge_cases() {
    let encoded = STANDARD.encode("admin:admin123");
    assert!(BasicAuth::from_header(Some(format!("Basic   {}  ", encoded).as_str())).is_some());
    assert!(BasicAuth::from_header(Some(format!("basic {}", encoded).as_str())).is_none());
    assert!(BasicAuth::from_header(Some(format!("Bearer {}", encoded).as_str())).is_none());
    assert!(BasicAuth::from_header(Some("Basic not-base64!")).is_none());
    assert!(BasicAuth::from_header(Some("Basic")).is_none());
    let no_colon = STANDARD.encode("adminadmin123");
    assert!(BasicAuth::from_header(Some(format!("Basic {}", no_colon).as_str())).is_none());
    let other_user = STANDARD.encode("root:admin123");
    assert!(BasicAuth::from_header(Some(format!("Basic {}", other_user).as_str())).is_none());
}

fn order(status: &str) -> RecentOrder {
    RecentOrder {
        order_id: "1".to_string(),
        customer_name: "Unknown".to_string(),
        username: String::new(),
        total_amount: 100,
        status: status.to_string(),
    }
}

#[test]
fn test_dashboard_highlights_and_labels() {
    let h = order_highlights(&vec![order("paid"), order("cancelled")]);
    assert!(h.has_new_orders);
    assert!(!h.has_shipping_orders);
    assert!(!h.has_delivered_orders);
    let h = order_highlights(&vec![order("shipped"), order("delivered")]);
    assert!(!h.has_new_orders);
    assert!(h.has_shipping_orders);
    assert!(h.has_delivered_orders);
    let h = order_highlights(&Vec::new());
    assert!(!h.has_new_orders && !h.has_shipping_orders && !h.has_delivered_orders);

    assert_eq!(bot_status_label("active".to_string()), "Online");
    assert_eq!(bot_status_label("online".to_string()), "Online");
    assert_eq!(bot_status_label("idle".to_string()), "Paused");
    assert_eq!(bot_status_label("paused".to_string()), "Paused");
    assert_eq!(bot_status_label("maintenance".to_string()), "maintenance");
    assert_eq!(theme_or_default(None), "dark");
    assert_eq!(theme_or_default(Some("light".to_string())), "light");
    assert_eq!(active_tab(None), "catalog");
    assert_eq!(active_tab(Some("orders".to_string())), "orders");
}

#[test]
fn test_form_fields_and_redirects() {
    assert_eq!(clean_field(&Some("  Moscow, Tverskaya 1 ".to_string())), Some("Moscow, Tverskaya 1".to_string()));
    assert_eq!(clean_field(&Some("   ".to_string())), None);
    assert_eq!(clean_field(&None), None);
    assert_eq!(required_id("  ORD-1 "), Some("ORD-1".to_string()));
    assert_eq!(required_id(" \t"), None);
    assert_eq!(
        table_error_redirect("orders", "Order ID cannot be empty"),
        "/tables?table=orders&error_msg=Order%20ID%20cannot%20be%20empty"
    );
    assert_eq!(
        table_error_redirect("catalog", "ошибка: a/b"),
        "/tables?table=catalog&error_msg=%D0%BE%D1%88%D0%B8%D0%B1%D0%BA%D0%B0%3A%20a%2Fb"
    );
    assert_eq!(table_done_redirect("contacts", "deleted"), "/tables?table=contacts&deleted=true");
    assert_eq!(backup_path(1778900618944), "./data/backups/backup_1778900618944.db");
    assert_eq!(
        backup_statement("./data/backups/backup_1.db"),
        "VACUUM INTO './data/backups/backup_1.db'"
    );
}

#[test]
fn test_health_report() {
    let ok = health_status(Some(("paused".to_string(), true)), 4096, 12);
    assert_eq!(ok.status, "ok");
    assert_eq!(ok.database, "ok");
    assert_eq!(ok.bot_status, "paused");
    assert_eq!(ok.db_size_bytes, 4096);
    assert_eq!(ok.uptime_seconds, 12);
    let down = health_status(Some(("active".to_string(), false)), 0, 0);
    assert_eq!(down.database, "error");
    assert_eq!(down.bot_status, "offline");
    let none = health_status(None, 0, 3);
    assert_eq!(none.database, "error");
    assert_eq!(none.bot_status, "offline");
    assert_eq!(none.status, "ok");
}
