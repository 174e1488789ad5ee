//! The web admin panel: who may enter, and what its pages and forms turn into.

use vstd::prelude::*;
use vstd::string::StringSliceAdditionalSpecFns;
use crate::encoding::{base64_decode, base64_encoding, lemma_base64_no_white_space, percent_encoding, url_encode};
use crate::numbers::{decimal, format_u128};
use crate::text::{chars_of, copy_range, lemma_trim_no_white_space, same_text, trim, trim_bounds, string_of};
use crate::orders::status_name;

verus! {

/// The admin panel's login name and password, `admin:admin123`, as bytes.
pub open spec fn admin_credentials() -> Seq<u8> {
    seq![97u8, 100u8, 109u8, 105u8, 110u8, 58u8, 97u8, 100u8, 109u8, 105u8, 110u8, 49u8, 50u8, 51u8]
}

/// An `Authorization` header lets the admin in: it is `Basic ` followed by the Base64
/// encoding of `admin:admin123`, whitespace around the encoding allowed.
pub open spec fn admits_admin(header: Option<Seq<char>>) -> bool {
    match header {
        Some(h) => h.len() >= 6 && h.subrange(0, 6) == "Basic "@ && trim(h.subrange(6, h.len() as int))
            == base64_encoding(admin_credentials()),
        None => false,
    }
}

/// Proof that the caller is the admin.
#[derive(Debug, Clone, Copy, PartialEq, Eq, Structural)]
pub struct BasicAuth;

/// The body of the answer to a request without valid credentials.
pub const UNAUTHORIZED_BODY: &'static str = "401 Unauthorized - Admin authorization required.";

/// The challenge that makes a browser ask for credentials.
pub const AUTH_CHALLENGE: &'static str = "Basic realm=\"Admin Panel\", charset=\"UTF-8\"";

fn credentials() -> (r: Vec<u8>)
    ensures
        r@ == admin_credentials(),
{
    let r = vec![97u8, 100u8, 109u8, 105u8, 110u8, 58u8, 97u8, 100u8, 109u8, 105u8, 110u8, 49u8, 50u8, 51u8];
    assert(r@ =~= admin_credentials());
    r
}

fn same_bytes(a: &Vec<u8>, b: &Vec<u8>) -> (r: bool)
    ensures
        r == (a@ == b@),
{
    if a.len() != b.len() {
        return false;
    }
    let mut i: usize = 0;
    while i < a.len()
        invariant
            i <= a.len(),
            a.len() == b.len(),
            forall|j: int| 0 <= j < i ==> a@[j] == b@[j],
        decreases a.len() - i,
    {
        if a[i] != b[i] {
            return false;
        }
        i += 1;
    }
    assert(a@ =~= b@);
    true
}

impl BasicAuth {
    /// Checks the `Authorization` header of a request (absent, or not visible ASCII, as
    /// `None`): only `Basic` credentials `admin:admin123` let the caller in.
    ///
    /// The decoded credentials are split at their first `:` into login and password;
    /// both must match, which is the same as the whole being `admin:admin123`.
    pub fn from_header(header: Option<&str>) -> (r: Option<BasicAuth>)
        ensures
            r is Some == admits_admin(match header {
                Some(h) => Some(h@),
                None => None,
            }),
    {
        let h = match header {
            Some(h) => h,
            None => {
                return None;
            },
        };
        let v = chars_of(h);
        proof {
            reveal_strlit("Basic ");
        }
        let prefix = chars_of("Basic ");
        assert(prefix@.len() == 6);
        if v.len() < 6 {
            return None;
        }
        let mut i: usize = 0;
        while i < 6
            invariant
                i <= 6 <= v.len(),
                prefix@ == "Basic "@,
                prefix.len() == 6,
                v@ == h@,
                header == Some(h),
                forall|j: int| 0 <= j < i ==> v@[j] == prefix@[j],
            decreases 6 - i,
        {
            if v[i] != prefix[i] {
                assert(h@.subrange(0, 6)[i as int] != "Basic "@[i as int]);
                assert(h@.subrange(0, 6) != "Basic "@);
                return None;
            }
            i += 1;
        }
        assert(h@.subrange(0, 6) =~= "Basic "@);
        let rest = copy_range(&v, 6, v.len());
        let (a, b) = trim_bounds(&rest);
        let encoded = string_of(&rest, a, b);
        match base64_decode(encoded.as_str()) {
            Some(bytes) => {
                let expected = credentials();
                if same_bytes(&bytes, &expected) {
                    Some(BasicAuth)
                } else {
                    None
                }
            },
            None => None,
        }
    }
}

/// Law: the header a browser sends for the login `admin` with the password `admin123`
/// (`Basic ` and the Base64 encoding of `admin:admin123`) lets the admin in.
pub proof fn law_admin_header_admitted()
    ensures
        admits_admin(Some("Basic "@ + base64_encoding(admin_credentials()))),
{
    reveal_strlit("Basic ");
    let h = "Basic "@ + base64_encoding(admin_credentials());
    assert(h.subrange(0, 6) =~= "Basic "@);
    assert(h.subrange(6, h.len() as int) =~= base64_encoding(admin_credentials()));
    lemma_base64_no_white_space(admin_credentials());
    lemma_trim_no_white_space(base64_encoding(admin_credentials()));
}

/// A recent order as the dashboard lists it.
#[derive(Debug, Clone, PartialEq, Eq)]
pub struct RecentOrder {
    pub order_id: String,
    pub customer_name: String,
    pub username: String,
    pub total_amount: i64,
    pub status: String,
}

/// The label the dashboard shows for the bot status setting.
pub open spec fn status_label(raw: Seq<char>) -> Seq<char> {
    if raw == "active"@ || raw == "online"@ {
        "Online"@
    } else if raw == "paused"@ || raw == "idle"@ {
        "Paused"@
    } else {
        raw
    }
}

/// The label the dashboard shows for the bot status setting.
pub fn bot_status_label(raw: String) -> (r: String)
    ensures
        r@ == status_label(raw@),
{
    if same_text(raw.as_str(), "active") || same_text(raw.as_str(), "online") {
        String::from_str("Online")
    } else if same_text(raw.as_str(), "paused") || same_text(raw.as_str(), "idle") {
        String::from_str("Paused")
    } else {
        raw
    }
}

/// Some order of the list has one of the given statuses.
pub open spec fn any_status(orders: Seq<RecentOrder>, a: Seq<char>, b: Seq<char>) -> bool {
    exists|i: int| 0 <= i < orders.len() && (#[trigger] orders[i].status@ == a || orders[i].status@ == b)
}

/// Which highlights the dashboard shows.
#[derive(Debug, Clone, Copy, PartialEq, Eq, Structural)]
pub struct OrderHighlights {
    /// Some order is pending or paid.
    pub has_new_orders: bool,
    /// Some order is shipped.
    pub has_shipping_orders: bool,
    /// Some order is delivered.
    pub has_delivered_orders: bool,
}

fn has_status(orders: &Vec<RecentOrder>, a: &str, b: &str) -> (r: bool)
    ensures
        r == any_status(orders@, a@, b@),
{
    let mut i: usize = 0;
    while i < orders.len()
        invariant
            i <= orders.len(),
            forall|j: int| 0 <= j < i ==> !(#[trigger] orders@[j].status@ == a@ || orders@[j].status@ == b@),
        decreases orders.len() - i,
    {
        let s = orders[i].status.as_str();
        if same_text(s, a) || same_text(s, b) {
            assert(orders@[i as int].status@ == a@ || orders@[i as int].status@ == b@);
            return true;
        }
        i += 1;
    }
    false
}

/// The dashboard highlights for a list of recent orders.
pub fn order_highlights(orders: &Vec<RecentOrder>) -> (r: OrderHighlights)
    ensures
        r.has_new_orders == any_status(orders@, "pending"@, "paid"@),
        r.has_shipping_orders == any_status(orders@, "shipped"@, "shipped"@),
        r.has_delivered_orders == any_status(orders@, "delivered"@, "delivered"@),
{
    OrderHighlights {
        has_new_orders: has_status(orders, "pending", "paid"),
        has_shipping_orders: has_status(orders, "shipped", "shipped"),
        has_delivered_orders: has_status(orders, "delivered", "delivered"),
    }
}

/// An optional form field as stored: trimmed, and absent when nothing is left.
pub open spec fn cleaned_field(field: Option<String>) -> Option<Seq<char>> {
    match field {
        Some(s) => if trim(s@).len() == 0 {
            None
        } else {
            Some(trim(s@))
        },
        None => None,
    }
}

/// An optional form field as stored: trimmed, and absent when nothing is left.
pub fn clean_field(field: &Option<String>) -> (r: Option<String>)
    ensures
        match r {
            Some(s) => cleaned_field(*field) == Some(s@),
            None => cleaned_field(*field) is None,
        },
{
    match field {
        Some(s) => {
            let v = chars_of(s.as_str());
            let (a, b) = trim_bounds(&v);
            if a == b {
                None
            } else {
                Some(string_of(&v, a, b))
            }
        },
        None => None,
    }
}

/// A required identifier typed into a form: trimmed, and refused when nothing is left.
pub fn required_id(raw: &str) -> (r: Option<String>)
    ensures
        match r {
            Some(s) => trim(raw@).len() > 0 && s@ == trim(raw@),
            None => trim(raw@).len() == 0,
        },
{
    let v = chars_of(raw);
    let (a, b) = trim_bounds(&v);
    if a == b {
        None
    } else {
        Some(string_of(&v, a, b))
    }
}

/// The tables page reporting an error on one of its tabs.
pub fn table_error_redirect(table: &str, message: &str) -> (r: String)
    ensures
        r@ == "/tables?table="@ + table@ + "&error_msg="@ + percent_encoding(message.spec_bytes()),
{
    let mut r = String::from_str("/tables?table=");
    r.append(table);
    r.append("&error_msg=");
    let encoded = url_encode(message);
    r.append(encoded.as_str());
    r
}

/// The tables page reporting the outcome (`added`, `updated` or `deleted`) of a change on
/// one of its tabs.
pub fn table_done_redirect(table: &str, outcome: &str) -> (r: String)
    ensures
        r@ == "/tables?table="@ + table@ + "&"@ + outcome@ + "=true"@,
{
    let mut r = String::from_str("/tables?table=");
    r.append(table);
    r.append("&");
    r.append(outcome);
    r.append("=true");
    r
}

/// Where a backup taken `millis` milliseconds after the Unix epoch is written.
pub fn backup_path(millis: u128) -> (r: String)
    ensures
        r@ == "./data/backups/backup_"@ + decimal(millis as nat) + ".db"@,
{
    let mut r = String::from_str("./data/backups/backup_");
    r.append(format_u128(millis).as_str());
    r.append(".db");
    r
}

/// The statement that copies the database into a backup file.
pub fn backup_statement(path: &str) -> (r: String)
    ensures
        r@ == "VACUUM INTO '"@ + path@ + "'"@,
{
    let mut r = String::from_str("VACUUM INTO '");
    r.append(path);
    r.append("'");
    r
}

/// The health report served at `/health`.
#[derive(Debug, Clone, PartialEq, Eq)]
pub struct HealthStatus {
    pub status: &'static str,
    pub database: &'static str,
    pub db_size_bytes: u64,
    pub uptime_seconds: u64,
    pub bot_status: String,
}

/// The health report: the bot status and `ok` when the database answered its probe,
/// `offline` and `error` otherwise.
pub fn health_status(probe: Option<(String, bool)>, db_size_bytes: u64, uptime_seconds: u64) -> (r: HealthStatus)
    ensures
        r.status@ == "ok"@,
        r.db_size_bytes == db_size_bytes,
        r.uptime_seconds == uptime_seconds,
        match probe {
            Some((status, true)) => r.bot_status == status && r.database@ == "ok"@,
            _ => r.bot_status@ == "offline"@ && r.database@ == "error"@,
        },
{
    let (bot_status, database) = match probe {
        Some((status, true)) => (status, "ok"),
        _ => (String::from_str("offline"), "error"),
    };
    HealthStatus { status: "ok", database, db_size_bytes, uptime_seconds, bot_status }
}

/// The UI theme used when none is set.
pub fn theme_or_default(theme: Option<String>) -> (r: String)
    ensures
        r@ == (match theme {
            Some(t) => t@,
            None => "dark"@,
        }),
{
    match theme {
        Some(t) => t,
        None => String::from_str("dark"),
    }
}

/// Form of the quick status change on the dashboard.
#[derive(Debug, Clone, PartialEq, Eq)]
pub struct OrderStatusUpdateForm {
    pub order_id: String,
    pub status: String,
}

/// Form of the theme switch.
#[derive(Debug, Clone, PartialEq, Eq)]
pub struct UpdateThemeForm {
    pub theme: String,
}

/// Query of the settings page.
#[derive(Debug, Clone, Copy, PartialEq, Eq, Structural)]
pub struct ConfigQuery {
    pub saved: Option<bool>,
    pub backup_success: Option<bool>,
}

/// Query of the tables page.
#[derive(Debug, Clone, PartialEq, Eq)]
pub struct TablesQuery {
    pub table: Option<String>,
    pub added: Option<bool>,
    pub updated: Option<bool>,
    pub deleted: Option<bool>,
    pub error_msg: Option<String>,
}

/// The tab the tables page opens on: the one asked for, else the catalog.
pub fn active_tab(table: Option<String>) -> (r: String)
    ensures
        r@ == (match table {
            Some(t) => t@,
            None => "catalog"@,
        }),
{
    match table {
        Some(t) => t,
        None => String::from_str("catalog"),
    }
}

/// Form adding a product.
#[derive(Debug, Clone, PartialEq, Eq)]
pub struct CatalogAddForm {
    pub product_name: String,
    pub standard_price: i32,
    pub stock_quantity: i32,
    pub tags: Option<String>,
    pub notes: Option<String>,
    pub suitable_season: String,
    pub suitable_situation: String,
    pub duration: Option<String>,
    pub sillage: Option<String>,
}

/// Form changing a product's price and stock.
#[derive(Debug, Clone, Copy, PartialEq, Eq, Structural)]
pub struct CatalogUpdateForm {
    pub product_id: i64,
    pub standard_price: i32,
    pub stock_quantity: i32,
}

/// Form adding a contact.
#[derive(Debug, Clone, PartialEq, Eq)]
pub struct ContactAddForm {
    pub chat_id: i64,
    pub first_name: String,
    pub username: Option<String>,
    pub phone_number: Option<String>,
    pub address: Option<String>,
    pub nickname: Option<String>,
}

/// Form changing a contact.
#[derive(Debug, Clone, PartialEq, Eq)]
pub struct ContactUpdateForm {
    pub chat_id: i64,
    pub phone_number: Option<String>,
    pub address: Option<String>,
    pub nickname: Option<String>,
}

/// Form adding an order.
#[derive(Debug, Clone, PartialEq, Eq)]
pub struct OrderAddForm {
    pub order_id: String,
    pub chat_id: i64,
    pub status: String,
    pub delivery_address: Option<String>,
    pub total_amount: i32,
}

/// Form changing an order.
#[derive(Debug, Clone, PartialEq, Eq)]
pub struct OrderUpdateForm {
    pub order_id: String,
    pub status: String,
    pub delivery_address: Option<String>,
    pub total_amount: i32,
}

/// Form adding an order line.
#[derive(Debug, Clone, PartialEq, Eq)]
pub struct OrderItemAddForm {
    pub item_id: String,
    pub order_id: String,
    pub product_id: i64,
    pub quantity: i32,
    pub price_at_sale: i32,
}

/// Form changing an order line.
#[derive(Debug, Clone, PartialEq, Eq)]
pub struct OrderItemUpdateForm {
    pub item_id: String,
    pub quantity: i32,
    pub price_at_sale: i32,
}

} // verus!
