//! The catalog, settings and media that a fresh database is filled with.

use vstd::prelude::*;
use crate::catalog::Product;
use crate::media_manager::AgentMedia;
use crate::types::ProductId;

verus! {

/// `o` holds a text equal to `t`.
pub open spec fn holds_text(o: Option<String>, t: Seq<char>) -> bool {
    o matches Some(s) && s@ == t
}

/// A database is seeded only while its catalog is empty.
pub open spec fn seeds(catalog_count: int) -> bool {
    catalog_count <= 0
}

/// How many perfumes seeding puts in the catalog.
pub open spec fn seeded_count() -> nat {
    3
}

/// A fresh database is seeded only while its catalog is empty.
pub fn should_seed(catalog_count: i64) -> (r: bool)
    ensures
        r == seeds(catalog_count as int),
{
    catalog_count <= 0
}

/// Law: seeding runs at most once. A catalog that was seeded holds the seeded perfumes
/// besides what it held, so a second run finds it not empty and seeds nothing; a
/// catalog that is not empty is never seeded.
pub proof fn law_seeding_runs_once(catalog_count: int)
    requires
        catalog_count >= 0,
    ensures
        seeds(catalog_count) ==> !seeds(catalog_count + seeded_count()),
        catalog_count > 0 ==> !seeds(catalog_count),
{
}

/// The seeded product at position `i` matches its listing.
pub open spec fn seeded_product(p: Product, i: int) -> bool {
    if i == 0 {
        &&& p.product_id == ProductId(10001)
        &&& p.product_name@ == "Creed Aventus"@
        &&& p.standard_price == 15000
        &&& p.stock_quantity == 50
        &&& holds_text(p.tags, "Luxury, Fruity, Woody"@)
        &&& holds_text(p.notes, "Pineapple, Bergamot, Birch, Patchouli, Musk"@)
        &&& holds_text(p.suitable_season, "Spring, Summer, Autumn"@)
        &&& holds_text(p.suitable_situation, "Day, Evening, Business, Special Occasion"@)
        &&& holds_text(p.duration, "8-10 hours"@)
        &&& holds_text(p.sillage, "Strong"@)
    } else if i == 1 {
        &&& p.product_id == ProductId(10002)
        &&& p.product_name@ == "Bleu de Chanel"@
        &&& p.standard_price == 12000
        &&& p.stock_quantity == 75
        &&& holds_text(p.tags, "Fresh, Citrus, Woody"@)
        &&& holds_text(p.notes, "Grapefruit, Mint, Incense, Ginger, Sandalwood"@)
        &&& holds_text(p.suitable_season, "Any Season"@)
        &&& holds_text(p.suitable_situation, "Day, Evening, Date Night, Casual"@)
        &&& holds_text(p.duration, "6-8 hours"@)
        &&& holds_text(p.sillage, "Moderate"@)
    } else if i == 2 {
        &&& p.product_id == ProductId(10003)
        &&& p.product_name@ == "Dior Sauvage"@
        &&& p.standard_price == 11000
        &&& p.stock_quantity == 60
        &&& holds_text(p.tags, "Fresh, Spicy, Amber"@)
        &&& holds_text(p.notes, "Calabrian Bergamot, Sichuan Pepper, Lavender, Ambroxan"@)
        &&& holds_text(p.suitable_season, "Spring, Summer, Autumn"@)
        &&& holds_text(p.suitable_situation, "Casual, Night Out, Date"@)
        &&& holds_text(p.duration, "8-10 hours"@)
        &&& holds_text(p.sillage, "Heavy"@)
    } else {
        false
    }
}

fn text(s: &str) -> (r: Option<String>)
    ensures
        holds_text(r, s@),
{
    Some(String::from_str(s))
}

/// The three perfumes a fresh catalog starts with.
pub fn seed_products() -> (r: Vec<Product>)
    ensures
        r.len() == seeded_count(),
        forall|i: int| 0 <= i < 3 ==> seeded_product(#[trigger] r@[i], i),
{
    let mut r: Vec<Product> = Vec::new();
    r.push(Product {
        product_id: ProductId(10001),
        product_name: String::from_str("Creed Aventus"),
        standard_price: 15000,
        stock_quantity: 50,
        tags: text("Luxury, Fruity, Woody"),
        notes: text("Pineapple, Bergamot, Birch, Patchouli, Musk"),
        suitable_season: text("Spring, Summer, Autumn"),
        suitable_situation: text("Day, Evening, Business, Special Occasion"),
        duration: text("8-10 hours"),
        sillage: text("Strong"),
    });
    r.push(Product {
        product_id: ProductId(10002),
        product_name: String::from_str("Bleu de Chanel"),
        standard_price: 12000,
        stock_quantity: 75,
        tags: text("Fresh, Citrus, Woody"),
        notes: text("Grapefruit, Mint, Incense, Ginger, Sandalwood"),
        suitable_season: text("Any Season"),
        suitable_situation: text("Day, Evening, Date Night, Casual"),
        duration: text("6-8 hours"),
        sillage: text("Moderate"),
    });
    r.push(Product {
        product_id: ProductId(10003),
        product_name: String::from_str("Dior Sauvage"),
        standard_price: 11000,
        stock_quantity: 60,
        tags: text("Fresh, Spicy, Amber"),
        notes: text("Calabrian Bergamot, Sichuan Pepper, Lavender, Ambroxan"),
        suitable_season: text("Spring, Summer, Autumn"),
        suitable_situation: text("Casual, Night Out, Date"),
        duration: text("8-10 hours"),
        sillage: text("Heavy"),
    });
    r
}

/// The default settings a fresh database starts with, as key and value.
pub fn seed_settings() -> (r: Vec<(&'static str, &'static str)>)
    ensures
        r.len() == 2,
        r@[0].0@ == "bot_status"@ && r@[0].1@ == "active"@,
        r@[1].0@ == "ai_mode"@ && r@[1].1@ == "autonomous"@,
{
    vec![("bot_status", "active"), ("ai_mode", "autonomous")]
}

/// The sample media file a fresh database starts with; it is allowed for the assistant.
pub fn seed_media() -> (r: AgentMedia)
    ensures
        r.id is None,
        r.file_path@ == "./assets/creed_aventus.jpg"@,
        holds_text(r.telegram_file_id, "AgACAgIAAxkBAAM1ZH..."@),
        r.title@ == "Creed Aventus Catalog Photo"@,
        r.purpose@ == "product_showcase"@,
        r.is_allowed_for_ai,
{
    AgentMedia {
        id: None,
        file_path: String::from_str("./assets/creed_aventus.jpg"),
        telegram_file_id: text("AgACAgIAAxkBAAM1ZH..."),
        title: String::from_str("Creed Aventus Catalog Photo"),
        purpose: String::from_str("product_showcase"),
        is_allowed_for_ai: true,
    }
}

} // verus!
