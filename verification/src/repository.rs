//! The item repository's decision logic: what to return and what to log
//! for each reply the document store can give to an insert or a find.
//!
//! Each operation's store interaction is a single call; the caller that
//! performs it hands the reply in as a plain value, and the functions here
//! decide the outcome. Every returned error is one of three fixed messages:
//! the detail of an underlying store failure goes to the log line only,
//! never into the returned value.

use vstd::prelude::*;
use vstd::string::StringExecFns;
use crate::document::{lookup, lemma_lookup_skip, BsonValue, Document, Field};
use crate::entities::{InsertItemRequest, Item, ItemBson};
use crate::object_id::{hex_of, ItemId};

verus! {

/// The opaque message returned when an insert fails at the store.
pub open spec fn insert_failed_msg() -> Seq<char> {
    "Error: Insert one item failed"@
}

/// The message returned when the store's reply to an insert carries an
/// identifier that is not an object id.
pub open spec fn bad_id_msg() -> Seq<char> {
    "Error: Inserted id is not ObjectId"@
}

/// The opaque message returned whenever a find does not produce an item.
pub open spec fn find_failed_msg() -> Seq<char> {
    "Error: Find one item failed"@
}

/// The log line for an underlying failure: it carries the full detail.
pub open spec fn log_detail(detail: Seq<char>) -> Seq<char> {
    "Error: "@ + detail
}

/// The log line for a successful insert: it names the assigned identifier.
pub open spec fn inserted_log(id: ItemId) -> Seq<char> {
    "Inserted id: "@ + hex_of(id.bytes@)
}

/// Whether a looked-up value is an object id.
pub open spec fn is_object_id(v: Option<BsonValue>) -> bool {
    v matches Some(BsonValue::ObjectId(_))
}

/// Whether a looked-up value is text.
pub open spec fn is_text(v: Option<BsonValue>) -> bool {
    v matches Some(BsonValue::Text(_))
}

/// Whether a looked-up value is a 32-bit integer.
pub open spec fn is_int32(v: Option<BsonValue>) -> bool {
    v matches Some(BsonValue::Int32(_))
}

/// The item a document decodes to, if it holds every required field with
/// the required kind; `None` otherwise. Fields beyond the required six are
/// ignored, as a schema-flexible store allows.
pub open spec fn item_of_doc(fields: Seq<Field>) -> Option<ItemBson> {
    match (
        lookup(fields, "_id"@),
        lookup(fields, "name"@),
        lookup(fields, "description"@),
        lookup(fields, "damage"@),
        lookup(fields, "level_required"@),
        lookup(fields, "price"@),
    ) {
        (
            Some(BsonValue::ObjectId(id)),
            Some(BsonValue::Text(name)),
            Some(BsonValue::Text(description)),
            Some(BsonValue::Int32(damage)),
            Some(BsonValue::Int32(level_required)),
            Some(BsonValue::Int32(price)),
        ) => Some(
            ItemBson { _id: id, name, description, damage, level_required, price },
        ),
        _ => None,
    }
}

/// The detail logged when a document fails to decode: it names the first
/// required field, in stored order, that is missing or of the wrong kind.
pub open spec fn decode_failed_detail(fields: Seq<Field>) -> Seq<char> {
    if !is_object_id(lookup(fields, "_id"@)) {
        "missing or invalid field: _id"@
    } else if !is_text(lookup(fields, "name"@)) {
        "missing or invalid field: name"@
    } else if !is_text(lookup(fields, "description"@)) {
        "missing or invalid field: description"@
    } else if !is_int32(lookup(fields, "damage"@)) {
        "missing or invalid field: damage"@
    } else if !is_int32(lookup(fields, "level_required"@)) {
        "missing or invalid field: level_required"@
    } else if !is_int32(lookup(fields, "price"@)) {
        "missing or invalid field: price"@
    } else {
        Seq::empty()
    }
}

/// Decodes a stored document into an item, whole or not at all: on any
/// missing or wrongly-kinded field the result is an error naming that
/// field, never a partially-populated item.
pub fn decode_item(doc: &Document) -> (r: Result<ItemBson, String>)
    ensures
        match r {
            Ok(item) => item_of_doc(doc.fields@) == Some(item),
            Err(m) => {
                &&& item_of_doc(doc.fields@) is None
                &&& m@ == decode_failed_detail(doc.fields@)
            },
        },
{
    let id: ItemId = match doc.get("_id") {
        Some(v) => match v {
            BsonValue::ObjectId(oid) => *oid,
            _ => {
                return Err("missing or invalid field: _id".to_owned());
            },
        },
        None => {
            return Err("missing or invalid field: _id".to_owned());
        },
    };
    let name: String = match doc.get("name") {
        Some(v) => match v {
            BsonValue::Text(s) => s.clone(),
            _ => {
                return Err("missing or invalid field: name".to_owned());
            },
        },
        None => {
            return Err("missing or invalid field: name".to_owned());
        },
    };
    let description: String = match doc.get("description") {
        Some(v) => match v {
            BsonValue::Text(s) => s.clone(),
            _ => {
                return Err("missing or invalid field: description".to_owned());
            },
        },
        None => {
            return Err("missing or invalid field: description".to_owned());
        },
    };
    let damage: i32 = match doc.get("damage") {
        Some(v) => match v {
            BsonValue::Int32(n) => *n,
            _ => {
                return Err("missing or invalid field: damage".to_owned());
            },
        },
        None => {
            return Err("missing or invalid field: damage".to_owned());
        },
    };
    let level_required: i32 = match doc.get("level_required") {
        Some(v) => match v {
            BsonValue::Int32(n) => *n,
            _ => {
                return Err("missing or invalid field: level_required".to_owned());
            },
        },
        None => {
            return Err("missing or invalid field: level_required".to_owned());
        },
    };
    let price: i32 = match doc.get("price") {
        Some(v) => match v {
            BsonValue::Int32(n) => *n,
            _ => {
                return Err("missing or invalid field: price".to_owned());
            },
        },
        None => {
            return Err("missing or invalid field: price".to_owned());
        },
    };
    Ok(ItemBson { _id: id, name, description, damage, level_required, price })
}

/// Whether the fields are exactly the five of the request, in the order an
/// insert submits them, each holding the request's value.
pub open spec fn request_fields(fields: Seq<Field>, req: InsertItemRequest) -> bool {
    &&& fields.len() == 5
    &&& fields[0].name@ == "name"@ && fields[0].value == BsonValue::Text(req.name)
    &&& fields[1].name@ == "description"@ && fields[1].value == BsonValue::Text(
        req.description,
    )
    &&& fields[2].name@ == "damage"@ && fields[2].value == BsonValue::Int32(req.damage)
    &&& fields[3].name@ == "level_required"@ && fields[3].value == BsonValue::Int32(
        req.level_required,
    )
    &&& fields[4].name@ == "price"@ && fields[4].value == BsonValue::Int32(req.price)
}

/// The single document an insert submits: the request's five scalar
/// fields. The store, not the client, adds the identifier.
pub fn build_insert_document(req: &InsertItemRequest) -> (d: Document)
    ensures
        request_fields(d.fields@, *req),
{
    let mut fields: Vec<Field> = Vec::new();
    fields.push(Field { name: "name".to_owned(), value: BsonValue::Text(req.name.clone()) });
    fields.push(
        Field {
            name: "description".to_owned(),
            value: BsonValue::Text(req.description.clone()),
        },
    );
    fields.push(Field { name: "damage".to_owned(), value: BsonValue::Int32(req.damage) });
    fields.push(
        Field {
            name: "level_required".to_owned(),
            value: BsonValue::Int32(req.level_required),
        },
    );
    fields.push(Field { name: "price".to_owned(), value: BsonValue::Int32(req.price) });
    Document { fields }
}

/// What an insert returns to its caller, and what it logs.
pub struct InsertOutcome {
    pub result: Result<ItemId, String>,
    pub log: Option<String>,
}

/// Decides the outcome of an insert from the store's reply: either the
/// assigned identifier (`Ok`, from a successful reply carrying an object
/// id) or one fixed message. A store failure is logged with its full
/// detail; the returned error never carries that detail.
pub fn insert_one_outcome(store: Result<BsonValue, String>) -> (r: InsertOutcome)
    ensures
        match store {
            Ok(BsonValue::ObjectId(id)) => {
                &&& r.result == Ok::<ItemId, String>(id)
                &&& r.log matches Some(l) && l@ == inserted_log(id)
            },
            Ok(_) => {
                &&& r.result matches Err(m) && m@ == bad_id_msg()
                &&& r.log is None
            },
            Err(detail) => {
                &&& r.result matches Err(m) && m@ == insert_failed_msg()
                &&& r.log matches Some(l) && l@ == log_detail(detail@)
            },
        },
{
    match store {
        Ok(inserted_id) => match inserted_id {
            BsonValue::ObjectId(id) => {
                let line = "Inserted id: ".to_owned().concat(id.to_hex().as_str());
                InsertOutcome { result: Ok(id), log: Some(line) }
            },
            _ => InsertOutcome {
                result: Err("Error: Inserted id is not ObjectId".to_owned()),
                log: None,
            },
        },
        Err(e) => InsertOutcome {
            result: Err("Error: Insert one item failed".to_owned()),
            log: Some("Error: ".to_owned().concat(e.as_str())),
        },
    }
}

/// What a find returns to its caller, and what it logs.
pub struct FindOutcome {
    pub result: Result<Item, String>,
    pub log: Option<String>,
}

/// Whether a domain item carries exactly the stored item's values, with
/// the identifier in its hexadecimal string form.
pub open spec fn item_matches(it: Item, b: ItemBson) -> bool {
    &&& it._id@ == hex_of(b._id.bytes@)
    &&& it.name == b.name
    &&& it.description == b.description
    &&& it.damage == b.damage
    &&& it.level_required == b.level_required
    &&& it.price == b.price
}

/// Decides the outcome of a find from the store's reply. Only a reply
/// holding a document that decodes whole yields an item; a store failure,
/// an absent document, and a decode failure each yield the same fixed
/// message, so a caller can never mistake absence for success. Store and
/// decode failures are logged with their detail; absence is not logged.
pub fn find_one_outcome(store: Result<Option<Document>, String>) -> (r: FindOutcome)
    ensures
        match store {
            Ok(Some(doc)) => match item_of_doc(doc.fields@) {
                Some(b) => {
                    &&& r.result matches Ok(it) && item_matches(it, b)
                    &&& r.log is None
                },
                None => {
                    &&& r.result matches Err(m) && m@ == find_failed_msg()
                    &&& r.log matches Some(l) && l@ == log_detail(
                        decode_failed_detail(doc.fields@),
                    )
                },
            },
            Ok(None) => {
                &&& r.result matches Err(m) && m@ == find_failed_msg()
                &&& r.log is None
            },
            Err(detail) => {
                &&& r.result matches Err(m) && m@ == find_failed_msg()
                &&& r.log matches Some(l) && l@ == log_detail(detail@)
            },
        },
{
    let doc = match store {
        Ok(d) => match d {
            Some(doc) => doc,
            None => {
                return FindOutcome {
                    result: Err("Error: Find one item failed".to_owned()),
                    log: None,
                };
            },
        },
        Err(err) => {
            return FindOutcome {
                result: Err("Error: Find one item failed".to_owned()),
                log: Some("Error: ".to_owned().concat(err.as_str())),
            };
        },
    };
    match decode_item(&doc) {
        Ok(b) => {
            let hex = b._id.to_hex();
            FindOutcome {
                result: Ok(
                    Item {
                        _id: hex,
                        name: b.name,
                        description: b.description,
                        damage: b.damage,
                        level_required: b.level_required,
                        price: b.price,
                    },
                ),
                log: None,
            }
        },
        Err(m) => FindOutcome {
            result: Err("Error: Find one item failed".to_owned()),
            log: Some("Error: ".to_owned().concat(m.as_str())),
        },
    }
}

/// Law: a failure's log line carries the underlying store error text
/// verbatim, after the fixed prefix. The returned error messages, by
/// contrast, are the constants above, which take no detail at all: a
/// caller can read the detail from the log and only from the log.
pub proof fn lemma_log_carries_detail(detail: Seq<char>)
    ensures
        log_detail(detail).len() == "Error: "@.len() + detail.len(),
        log_detail(detail).skip("Error: "@.len() as int) == detail,
{
    assert(log_detail(detail).skip("Error: "@.len() as int) =~= detail);
}

/// The stored item a request becomes once the store assigns it an id.
pub open spec fn bson_item_of(req: InsertItemRequest, id: ItemId) -> ItemBson {
    ItemBson {
        _id: id,
        name: req.name,
        description: req.description,
        damage: req.damage,
        level_required: req.level_required,
        price: req.price,
    }
}

/// Law: a stored document holding exactly the inserted request's fields
/// together with the store-assigned identifier decodes to an item whose
/// every field equals the request's. With [`find_one_outcome`]'s contract
/// this says that finding what an insert stored returns the inserted
/// values unchanged.
pub proof fn lemma_insert_then_find(stored: Seq<Field>, req: InsertItemRequest, id: ItemId)
    requires
        stored.len() == 6,
        stored[0].name@ == "_id"@,
        stored[0].value == BsonValue::ObjectId(id),
        request_fields(stored.skip(1), req),
    ensures
        item_of_doc(stored) == Some(bson_item_of(req, id)),
{
    reveal_strlit("_id");
    reveal_strlit("name");
    reveal_strlit("description");
    reveal_strlit("damage");
    reveal_strlit("level_required");
    reveal_strlit("price");
    assert("_id"@.len() == 3);
    assert("name"@.len() == 4);
    assert("description"@.len() == 11);
    assert("damage"@.len() == 6);
    assert("level_required"@.len() == 14);
    assert("price"@.len() == 5);
    let rest = stored.skip(1);
    assert(stored[1] == rest[0]);
    assert(stored[2] == rest[1]);
    assert(stored[3] == rest[2]);
    assert(stored[4] == rest[3]);
    assert(stored[5] == rest[4]);
    assert(lookup(stored, "_id"@) == Some(BsonValue::ObjectId(id)));
    lemma_lookup_skip(stored, "name"@, 1);
    assert(stored.skip(1)[0] == stored[1]);
    assert(lookup(stored, "name"@) == Some(BsonValue::Text(req.name)));
    lemma_lookup_skip(stored, "description"@, 2);
    assert(stored.skip(2)[0] == stored[2]);
    assert(lookup(stored, "description"@) == Some(BsonValue::Text(req.description)));
    lemma_lookup_skip(stored, "damage"@, 3);
    assert(stored.skip(3)[0] == stored[3]);
    assert(lookup(stored, "damage"@) == Some(BsonValue::Int32(req.damage)));
    lemma_lookup_skip(stored, "level_required"@, 4);
    assert(stored.skip(4)[0] == stored[4]);
    assert(lookup(stored, "level_required"@) == Some(BsonValue::Int32(req.level_required)));
    lemma_lookup_skip(stored, "price"@, 5);
    assert(stored.skip(5)[0] == stored[5]);
    assert(lookup(stored, "price"@) == Some(BsonValue::Int32(req.price)));
}

} // verus!
