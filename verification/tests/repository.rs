use item_repository::document::{BsonValue, Document, Field};
use item_repository::entities::InsertItemRequest;
use item_repository::object_id::ItemId;
use item_repository::repository::{
    build_insert_document, decode_item, find_one_outcome, insert_one_outcome,
};

fn sample_id() -> ItemId {
    ItemId { bytes: [0x01, 0x23, 0x45, 0x67, 0x89, 0xab, 0xcd, 0xef, 0x01, 0x23, 0x45, 0x67] }
}

fn field(name: &str, value: BsonValue) -> Field {
    Field { name: name.to_string(), value }
}

fn sword_document(id: ItemId) -> Document {
    Document {
        fields: vec![
            field("_id", BsonValue::ObjectId(id)),
            field("name", BsonValue::Text("Sword".to_string())),
            field("description", BsonValue::Text("Sharp".to_string())),
            field("damage", BsonValue::Int32(10)),
            field("level_required", BsonValue::Int32(1)),
            field("price", BsonValue::Int32(100)),
        ],
    }
}

#[test]
fn to_hex_renders_every_byte() {
    let id = sample_id();
    assert_eq!(id.to_hex(), "0123456789abcdef01234567");
}

#[test]
fn to_hex_of_zero_id() {
    let id = ItemId { bytes: [0; 12] };
    assert_eq!(id.to_hex(), "000000000000000000000000");
}

#[test]
fn insert_success_returns_assigned_id() {
    let id = sample_id();
    let outcome = insert_one_outcome(Ok(BsonValue::ObjectId(id)));
    assert_eq!(outcome.result, Ok(id));
    assert_eq!(outcome.log, Some("Inserted id: 0123456789abcdef01234567".to_string()));
}

#[test]
fn insert_store_failure_logs_detail_but_returns_opaque_error() {
    let outcome = insert_one_outcome(Err("socket closed by peer".to_string()));
    let message = outcome.result.unwrap_err();
    assert_eq!(message, "Error: Insert one item failed");
    assert!(!message.contains("socket closed by peer"));
    assert_eq!(outcome.log, Some("Error: socket closed by peer".to_string()));
}

#[test]
fn insert_reply_without_object_id_is_an_error() {
    let outcome = insert_one_outcome(Ok(BsonValue::Text("not-an-id".to_string())));
    assert_eq!(outcome.result, Err("Error: Inserted id is not ObjectId".to_string()));
    assert_eq!(outcome.log, None);
}

#[test]
fn find_missing_document_is_an_error_not_an_empty_success() {
    let outcome = find_one_outcome(Ok(None));
    assert_eq!(outcome.result, Err("Error: Find one item failed".to_string()));
    assert_eq!(outcome.log, None);
}

#[test]
fn find_store_failure_logs_detail_but_returns_opaque_error() {
    let outcome = find_one_outcome(Err("connection reset".to_string()));
    let message = outcome.result.unwrap_err();
    assert_eq!(message, "Error: Find one item failed");
    assert!(!message.contains("connection reset"));
    assert_eq!(outcome.log, Some("Error: connection reset".to_string()));
}

#[test]
fn find_sword_returns_every_field() {
    let id = sample_id();
    let outcome = find_one_outcome(Ok(Some(sword_document(id))));
    let item = outcome.result.unwrap();
    assert_eq!(item._id, "0123456789abcdef01234567");
    assert_eq!(item.name, "Sword");
    assert_eq!(item.description, "Sharp");
    assert_eq!(item.damage, 10);
    assert_eq!(item.level_required, 1);
    assert_eq!(item.price, 100);
    assert_eq!(outcome.log, None);
}

#[test]
fn find_document_missing_a_field_is_an_error_not_a_partial_item() {
    let id = sample_id();
    let mut doc = sword_document(id);
    doc.fields.retain(|f| f.name != "description");
    let outcome = find_one_outcome(Ok(Some(doc)));
    assert_eq!(outcome.result, Err("Error: Find one item failed".to_string()));
    assert_eq!(outcome.log, Some("Error: missing or invalid field: description".to_string()));
}

#[test]
fn find_document_with_wrongly_typed_field_is_an_error() {
    let id = sample_id();
    let mut doc = sword_document(id);
    doc.fields[3] = field("damage", BsonValue::Text("10".to_string()));
    let outcome = find_one_outcome(Ok(Some(doc)));
    assert_eq!(outcome.result, Err("Error: Find one item failed".to_string()));
    assert_eq!(outcome.log, Some("Error: missing or invalid field: damage".to_string()));
}

#[test]
fn decode_names_the_first_bad_field_in_stored_order() {
    let doc = Document { fields: vec![field("price", BsonValue::Int32(100))] };
    assert_eq!(decode_item(&doc), Err("missing or invalid field: _id".to_string()));
}

#[test]
fn decode_ignores_fields_beyond_the_required_six() {
    let id = sample_id();
    let mut doc = sword_document(id);
    doc.fields.push(field("rarity", BsonValue::Text("common".to_string())));
    let item = decode_item(&doc).unwrap();
    assert_eq!(item._id, id);
    assert_eq!(item.name, "Sword");
}

#[test]
fn build_insert_document_submits_the_five_request_fields() {
    let req = InsertItemRequest {
        name: "Sword".to_string(),
        description: "Sharp".to_string(),
        damage: 10,
        level_required: 1,
        price: 100,
    };
    let doc = build_insert_document(&req);
    assert_eq!(doc.fields.len(), 5);
    assert!(doc.fields.iter().all(|f| f.name != "_id"));
    assert_eq!(doc.get("name"), Some(&BsonValue::Text("Sword".to_string())));
    assert_eq!(doc.get("description"), Some(&BsonValue::Text("Sharp".to_string())));
    assert_eq!(doc.get("damage"), Some(&BsonValue::Int32(10)));
    assert_eq!(doc.get("level_required"), Some(&BsonValue::Int32(1)));
    assert_eq!(doc.get("price"), Some(&BsonValue::Int32(100)));
}

#[test]
fn inserted_fields_come_back_unchanged_from_a_find() {
    let req = InsertItemRequest {
        name: "Sword".to_string(),
        description: "Sharp".to_string(),
        damage: 10,
        level_required: 1,
        price: 100,
    };
    let id = sample_id();
    // The store receives the built document and prepends the id it assigns.
    let built = build_insert_document(&req);
    let mut fields = vec![field("_id", BsonValue::ObjectId(id))];
    fields.extend(built.fields);
    let outcome = find_one_outcome(Ok(Some(Document { fields })));
    let item = outcome.result.unwrap();
    assert_eq!(item._id, id.to_hex());
    assert_eq!(item.name, req.name);
    assert_eq!(item.description, req.description);
    assert_eq!(item.damage, req.damage);
    assert_eq!(item.level_required, req.level_required);
    assert_eq!(item.price, req.price);
}

#[test]
fn lookup_takes_the_first_occurrence_of_a_name() {
    let doc = Document {
        fields: vec![
            field("damage", BsonValue::Int32(7)),
            field("damage", BsonValue::Int32(9)),
        ],
    };
    assert_eq!(doc.get("damage"), Some(&BsonValue::Int32(7)));
    assert_eq!(doc.get("price"), None);
}
