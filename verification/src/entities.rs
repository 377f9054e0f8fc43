//! The shapes an item takes: the client-supplied request, the stored form
//! with a native object identifier, and the domain-facing form whose
//! identifier is a hexadecimal string.

use vstd::prelude::*;
use crate::object_id::ItemId;

verus! {

/// Client-supplied data for an item prior to persistence. It carries no
/// identifier: the store assigns one on insert.
#[derive(Clone, PartialEq, Debug)]
pub struct InsertItemRequest {
    pub name: String,
    pub description: String,
    pub damage: i32,
    pub level_required: i32,
    pub price: i32,
}

/// The stored form of an item, as decoded from a document: the identifier
/// is the store's native object id. It lives only long enough to be turned
/// into an [`Item`].
#[derive(Clone, PartialEq, Debug)]
pub struct ItemBson {
    pub _id: ItemId,
    pub name: String,
    pub description: String,
    pub damage: i32,
    pub level_required: i32,
    pub price: i32,
}

/// The domain-facing form of an item: the identifier is the external-facing
/// hexadecimal string form of the store-assigned object id.
#[derive(Clone, PartialEq, Debug)]
pub struct Item {
    pub _id: String,
    pub name: String,
    pub description: String,
    pub damage: i32,
    pub level_required: i32,
    pub price: i32,
}

} // verus!
