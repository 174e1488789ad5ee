//! Media files that the assistant may show customers.

use vstd::prelude::*;

verus! {

/// A registered media file and whether the assistant may use it.
#[derive(Debug, Clone, PartialEq, Eq)]
pub struct AgentMedia {
    pub id: Option<i64>,
    pub file_path: String,
    pub telegram_file_id: Option<String>,
    pub title: String,
    pub purpose: String,
    pub is_allowed_for_ai: bool,
}

} // verus!
