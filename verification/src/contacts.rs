//! Customer contact records.

use vstd::prelude::*;
use crate::types::ChatId;

verus! {

/// What the shop knows of a customer, keyed by their chat.
#[derive(Debug, Clone, PartialEq, Eq)]
pub struct Contact {
    pub chat_id: ChatId,
    pub first_name: Option<String>,
    pub address: Option<String>,
    pub phone_number: Option<String>,
    pub username: Option<String>,
    pub nickname: Option<String>,
}

} // verus!
