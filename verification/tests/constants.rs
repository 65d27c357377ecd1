//! The constants codec: both accepted wire shapes, the round trip, and the
//! degenerate-shape tolerance.
use qarnot::compute::constant::{Constants, WireField, WireRecord};

/// Builds a wire record from name/value pairs.
fn record(fields: &[(&str, &str)]) -> WireRecord {
    let mut out: Vec<WireField> = Vec::new();
    for (name, value) in fields {
        out.push(WireField {
            name: (*name).to_string(),
            value: (*value).to_string(),
        });
    }
    WireRecord { fields: out }
}

/// Converts a parsed JSON array of objects into wire records.
fn records_of_json(text: &str) -> Vec<WireRecord> {
    let parsed: serde_json::Value = serde_json::from_str(text).expect("test input parses");
    let arr = parsed.as_array().expect("test input is an array");
    let mut records: Vec<WireRecord> = Vec::new();
    for element in arr {
        let obj = element.as_object().expect("element is an object");
        let mut fields: Vec<WireField> = Vec::new();
        for (name, value) in obj {
            fields.push(WireField {
                name: name.clone(),
                value: value.as_str().expect("field is a string").to_string(),
            });
        }
        records.push(WireRecord { fields });
    }
    records
}

#[test]
fn deserialize_constants() {
    let example_str = r#"
        [
            {
              "key": "BLEND_FILE",
              "value": "final.blend"
            },
            {
              "key": "DOCKER_USER",
              "value": "mysuperuser"
            }
        ]
        "#;
    let constants = Constants::decode_records(&records_of_json(example_str));
    assert!(constants.get("BLEND_FILE") == Some("final.blend".to_string()));
    assert!(constants.get("DOCKER_USER") == Some("mysuperuser".to_string()));
}

#[test]
fn serialize_constants() {
    let example_str = r#"[{"key":"BLEND_FILE","value":"final.blend"}]"#;
    // The encoder fixes the field order, but a reader must accept either;
    // the service has historically sent both.
    let example_str_flipped = r#"[{"value":"final.blend","key":"BLEND_FILE"}]"#;
    let mut constants = Constants::new();
    constants.insert("BLEND_FILE", "final.blend");

    let mut array: Vec<serde_json::Value> = Vec::new();
    for rec in constants.encode() {
        let mut obj = serde_json::Map::new();
        for field in rec.fields {
            obj.insert(field.name, serde_json::Value::String(field.value));
        }
        array.push(serde_json::Value::Object(obj));
    }
    let res = serde_json::to_string(&serde_json::Value::Array(array));
    assert!(res.is_ok());
    let res = res.unwrap();
    assert!(
        res == example_str || res == example_str_flipped,
        "serialized constant: {}",
        res
    );
}

#[test]
fn round_trip_returns_the_same_map() {
    let mut constants = Constants::new();
    constants.insert("BLEND_FILE", "final.blend");
    constants.insert("DOCKER_USER", "mysuperuser");
    constants.insert("DOCKER_CMD", "echo hi");
    let decoded = Constants::decode_records(&constants.encode());
    assert_eq!(decoded.len(), 3);
    assert!(decoded.get("BLEND_FILE") == Some("final.blend".to_string()));
    assert!(decoded.get("DOCKER_USER") == Some("mysuperuser".to_string()));
    assert!(decoded.get("DOCKER_CMD") == Some("echo hi".to_string()));
}

#[test]
fn an_empty_map_round_trips_to_an_empty_map() {
    let constants = Constants::new();
    let encoded = constants.encode();
    assert!(encoded.is_empty());
    let decoded = Constants::decode_records(&encoded);
    assert_eq!(decoded.len(), 0);
}

#[test]
fn a_later_record_with_the_same_key_wins() {
    let records = vec![
        record(&[("key", "K"), ("value", "stale")]),
        record(&[("key", "K"), ("value", "fresh")]),
    ];
    let constants = Constants::decode_records(&records);
    assert_eq!(constants.len(), 1);
    assert!(constants.get("K") == Some("fresh".to_string()));
}

#[test]
fn insert_overwrites_and_reports_the_previous_value() {
    let mut constants = Constants::new();
    assert!(constants.insert("K", "one").is_none());
    assert!(constants.insert("K", "two") == Some("one".to_string()));
    assert_eq!(constants.len(), 1);
    assert!(constants.get("K") == Some("two".to_string()));
}

#[test]
fn record_fields_are_accepted_in_either_order() {
    let records = vec![
        record(&[("value", "final.blend"), ("key", "BLEND_FILE")]),
        record(&[("key", "DOCKER_USER"), ("value", "mysuperuser")]),
    ];
    let constants = Constants::decode_records(&records);
    assert_eq!(constants.len(), 2);
    assert!(constants.get("BLEND_FILE") == Some("final.blend".to_string()));
    assert!(constants.get("DOCKER_USER") == Some("mysuperuser".to_string()));
}

#[test]
fn both_shapes_decode_the_same_content() {
    let records = vec![
        record(&[("key", "A"), ("value", "1")]),
        record(&[("key", "B"), ("value", "2")]),
    ];
    let from_records = Constants::decode_records(&records);

    let degenerate = record(&[("key", "A"), ("value", "1"), ("key", "B"), ("value", "2")]);
    let from_object = Constants::decode_object(&degenerate);

    assert_eq!(from_records.len(), from_object.len());
    assert!(from_records.get("A") == from_object.get("A"));
    assert!(from_records.get("B") == from_object.get("B"));
    assert!(from_object.get("A") == Some("1".to_string()));
    assert!(from_object.get("B") == Some("2".to_string()));
}

#[test]
fn degenerate_key_without_value_contributes_no_entry() {
    // The lone trailing key adds nothing.
    let trailing = record(&[("key", "A"), ("value", "1"), ("key", "B")]);
    let decoded = Constants::decode_object(&trailing);
    assert_eq!(decoded.len(), 1);
    assert!(decoded.get("B").is_none());

    // A key whose follower is not a value adds nothing either, and the
    // follower is consumed.
    let mismatched = record(&[("key", "A"), ("note", "x"), ("key", "B"), ("value", "2")]);
    let decoded = Constants::decode_object(&mismatched);
    assert_eq!(decoded.len(), 1);
    assert!(decoded.get("A").is_none());
    assert!(decoded.get("B") == Some("2".to_string()));
}
