use domdb::codec::{
    assigned_id, decode, decode_rows, encode, encode_owned, insert_payload, WireField, WireRecord,
    WireValue,
};
use domdb::record::{DomRecord, JsonDom, JsonFrontDom};
use domdb::store::StoreError;

const TOKEN: u128 = 0xa1a2a3a4b1b2c1c2d1d2d3d4d5d6d7d8;
const TOKEN_TEXT: &str = "a1a2a3a4-b1b2-c1c2-d1d2-d3d4d5d6d7d8";

fn field(name: &str, value: WireValue) -> WireField {
    WireField { name: name.to_string(), value }
}

fn text(s: &str) -> WireValue {
    WireValue::Text(s.to_string())
}

fn stored_row(id: i64, uuid: &str, tag: &str, body: &str, order: i64) -> WireRecord {
    WireRecord {
        fields: vec![
            field("uuid", text(uuid)),
            field("tag", text(tag)),
            field("text", text(body)),
            field("order", WireValue::Integer(order)),
            field("id", WireValue::Integer(id)),
        ],
    }
}

fn without(row: WireRecord, name: &str) -> WireRecord {
    WireRecord { fields: row.fields.into_iter().filter(|f| f.name != name).collect() }
}

fn with_value(row: WireRecord, name: &str, value: WireValue) -> WireRecord {
    let mut fields = Vec::new();
    let mut slot = Some(value);
    for f in row.fields {
        if f.name == name {
            fields.push(WireField { name: f.name, value: slot.take().unwrap() });
        } else {
            fields.push(f);
        }
    }
    WireRecord { fields }
}

fn sample_row() -> WireRecord {
    stored_row(1, TOKEN_TEXT, "h3", "This Text", 0)
}

fn sample_record() -> DomRecord {
    DomRecord {
        id: 1,
        uuid: TOKEN,
        tag: "h3".to_string(),
        text: "This Text".to_string(),
        order: 0,
    }
}

#[test]
fn encode_writes_identity_tag_text_and_order() {
    let wire = encode(&JsonDom { uuid: TOKEN, tag: "h3", text: "This Text", order: 0 });
    assert_eq!(
        wire.fields,
        vec![
            field("uuid", text(TOKEN_TEXT)),
            field("tag", text("h3")),
            field("text", text("This Text")),
            field("order", WireValue::Integer(0)),
        ]
    );
}

#[test]
fn encode_writes_the_identity_in_lower_case_with_leading_zeros() {
    let wire = encode(&JsonDom { uuid: 0xABCDEF, tag: "", text: "", order: u32::MAX });
    assert_eq!(wire.fields[0], field("uuid", text("00000000-0000-0000-0000-000000abcdef")));
    assert_eq!(wire.fields[3], field("order", WireValue::Integer(4294967295)));
}

#[test]
fn encode_owned_agrees_with_encode() {
    let front = JsonFrontDom {
        uuid: TOKEN,
        tag: "h1".to_string(),
        text: "Another Text Text".to_string(),
        order: 1,
    };
    let borrowed = encode(&front.as_dom());
    assert_eq!(encode_owned(front), borrowed);
}

#[test]
fn decode_reads_a_stored_row() {
    assert_eq!(decode(&sample_row()), Ok(sample_record()));
}

#[test]
fn decode_reads_back_what_encode_wrote_under_any_key() {
    for id in [0u32, 1, 2, 77, u32::MAX] {
        let mut wire = encode(&JsonDom { uuid: TOKEN, tag: "h3", text: "This Text", order: 9 });
        wire.fields.push(field("id", WireValue::Integer(id as i64)));
        let record = decode(&wire).unwrap();
        assert_eq!(
            record,
            DomRecord {
                id,
                uuid: TOKEN,
                tag: "h3".to_string(),
                text: "This Text".to_string(),
                order: 9,
            }
        );
    }
}

#[test]
fn decode_does_not_depend_on_the_order_of_the_fields() {
    let mut row = sample_row();
    row.fields.reverse();
    assert_eq!(decode(&row), Ok(sample_record()));
}

#[test]
fn decode_ignores_fields_it_does_not_know() {
    let mut row = sample_row();
    row.fields.insert(0, field("colour", text("red")));
    row.fields.push(field("extra", WireValue::Other));
    assert_eq!(decode(&row), Ok(sample_record()));
}

#[test]
fn decode_takes_the_first_of_two_fields_with_one_name() {
    let mut row = sample_row();
    row.fields.push(field("tag", text("h1")));
    assert_eq!(decode(&row), Ok(sample_record()));
}

#[test]
fn decode_fails_where_a_field_is_lacking() {
    for name in ["id", "uuid", "tag", "text", "order"] {
        assert_eq!(
            decode(&without(sample_row(), name)),
            Err(StoreError::SerializationError),
            "without {name}"
        );
    }
    assert_eq!(decode(&WireRecord { fields: vec![] }), Err(StoreError::SerializationError));
}

#[test]
fn decode_fails_where_a_field_has_the_wrong_type() {
    let wrong = [
        ("id", text("1")),
        ("id", WireValue::Other),
        ("uuid", WireValue::Integer(7)),
        ("uuid", WireValue::Other),
        ("tag", WireValue::Integer(3)),
        ("tag", WireValue::Other),
        ("text", WireValue::Integer(0)),
        ("text", WireValue::Other),
        ("order", text("0")),
        ("order", WireValue::Other),
    ];
    for (name, value) in wrong {
        assert_eq!(
            decode(&with_value(sample_row(), name, value)),
            Err(StoreError::SerializationError),
            "wrong {name}"
        );
    }
}

#[test]
fn decode_fails_where_a_number_does_not_fit_its_width() {
    for name in ["id", "order"] {
        for n in [-1i64, 4294967296, i64::MAX, i64::MIN] {
            assert_eq!(
                decode(&with_value(sample_row(), name, WireValue::Integer(n))),
                Err(StoreError::SerializationError),
                "{name} = {n}"
            );
        }
    }
}

#[test]
fn decode_takes_the_widest_numbers_that_fit() {
    let row = stored_row(4294967295, TOKEN_TEXT, "h3", "This Text", 4294967295);
    let record = decode(&row).unwrap();
    assert_eq!(record.id, u32::MAX);
    assert_eq!(record.order, u32::MAX);
}

#[test]
fn decode_fails_where_the_identity_is_no_identity() {
    let wrong = [
        "",
        "h3",
        "a1a2a3a4-b1b2-c1c2-d1d2-d3d4d5d6d7d",
        "a1a2a3a4-b1b2-c1c2-d1d2-d3d4d5d6d7d8a",
        "a1a2a3a4b1b2-c1c2-d1d2-d3d4d5d6d7d8-",
        "g1a2a3a4-b1b2-c1c2-d1d2-d3d4d5d6d7d8",
        "a1a2a3a4_b1b2_c1c2_d1d2_d3d4d5d6d7d8",
    ];
    for s in wrong {
        assert_eq!(
            decode(&with_value(sample_row(), "uuid", text(s))),
            Err(StoreError::SerializationError),
            "identity {s:?}"
        );
    }
}

#[test]
fn decode_reads_an_identity_in_every_form_the_parser_knows() {
    let forms = [
        "A1A2A3A4-B1B2-C1C2-D1D2-D3D4D5D6D7D8",
        "a1a2a3a4b1b2c1c2d1d2d3d4d5d6d7d8",
        "{a1a2a3a4-b1b2-c1c2-d1d2-d3d4d5d6d7d8}",
        "urn:uuid:a1a2a3a4-b1b2-c1c2-d1d2-d3d4d5d6d7d8",
    ];
    for s in forms {
        let record = decode(&with_value(sample_row(), "uuid", text(s))).unwrap();
        assert_eq!(record.uuid, TOKEN, "identity {s:?}");
    }
}

#[test]
fn decode_keeps_empty_and_non_ascii_strings() {
    let row = stored_row(3, TOKEN_TEXT, "", "Grüße, 世界", 2);
    let record = decode(&row).unwrap();
    assert_eq!(record.tag, "");
    assert_eq!(record.text, "Grüße, 世界");
}

#[test]
fn assigned_id_reads_a_key_that_fits() {
    assert_eq!(assigned_id(&WireValue::Integer(0)), Ok(0));
    assert_eq!(assigned_id(&WireValue::Integer(1)), Ok(1));
    assert_eq!(assigned_id(&WireValue::Integer(4294967295)), Ok(u32::MAX));
}

#[test]
fn assigned_id_refuses_any_other_key() {
    assert_eq!(assigned_id(&WireValue::Integer(-1)), Err(StoreError::SerializationError));
    assert_eq!(assigned_id(&WireValue::Integer(4294967296)), Err(StoreError::SerializationError));
    assert_eq!(assigned_id(&text("1")), Err(StoreError::SerializationError));
    assert_eq!(assigned_id(&WireValue::Other), Err(StoreError::SerializationError));
}

#[test]
fn decode_rows_keeps_the_order_of_the_scan() {
    let rows = vec![
        stored_row(2, "00000000-0000-4000-8000-000000000002", "h1", "Another Text Text", 1),
        stored_row(1, "00000000-0000-4000-8000-000000000001", "h3", "This Text", 0),
    ];
    let records = decode_rows(&rows).unwrap();
    assert_eq!(records.len(), 2);
    assert_eq!(records[0].id, 2);
    assert_eq!(records[0].tag, "h1");
    assert_eq!(records[1].id, 1);
    assert_eq!(records[1].text, "This Text");
    assert_eq!(records[1].uuid, 0x00000000_0000_4000_8000_000000000001);
}

#[test]
fn decode_rows_of_nothing_is_nothing() {
    assert_eq!(decode_rows(&vec![]), Ok(vec![]));
}

#[test]
fn decode_rows_returns_no_record_where_one_row_is_bad() {
    let rows = vec![sample_row(), without(sample_row(), "text"), sample_row()];
    assert_eq!(decode_rows(&rows), Err(StoreError::SerializationError));
    let rows = vec![sample_row(), sample_row(), with_value(sample_row(), "id", WireValue::Other)];
    assert_eq!(decode_rows(&rows), Err(StoreError::SerializationError));
}

#[test]
fn insert_payload_draws_a_random_identity() {
    let wire = insert_payload("h4", "typed text", 5);
    assert_eq!(wire.fields.len(), 4);
    assert_eq!(wire.fields[1], field("tag", text("h4")));
    assert_eq!(wire.fields[2], field("text", text("typed text")));
    assert_eq!(wire.fields[3], field("order", WireValue::Integer(5)));
    assert_eq!(wire.fields[0].name, "uuid");
    let token = match &wire.fields[0].value {
        WireValue::Text(s) => s.clone(),
        other => panic!("the identity is no string: {other:?}"),
    };
    assert_eq!(token.len(), 36);
    let bytes = token.as_bytes();
    assert_eq!(bytes[14], b'4');
    assert!(matches!(bytes[19], b'8' | b'9' | b'a' | b'b'));
}

#[test]
fn insert_payload_reads_back_under_the_key_the_store_assigns() {
    let mut wire = insert_payload("h3", "This Text", 0);
    wire.fields.push(field("id", WireValue::Integer(1)));
    let record = decode(&wire).unwrap();
    assert_eq!(record.id, 1);
    assert_eq!(record.tag, "h3");
    assert_eq!(record.text, "This Text");
    assert_eq!(record.order, 0);
    assert_eq!(record.uuid & 0xF000_C000_0000_0000_0000, 0x4000_8000_0000_0000_0000);
    assert_eq!(encode(&record.payload()).fields[0], wire.fields[0]);
}
