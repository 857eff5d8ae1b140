use ofs::entity_key::{deserialize_entity_key_v3, serialize_entity_key_prefix, serialize_entity_key_v3};
use ofs::types::EntityKey;
use ofs::value_type::ValueType;

fn make_entity_key(keys: Vec<&str>, values: Vec<(ValueType, &[u8])>) -> EntityKey {
    EntityKey {
        join_keys: keys.iter().map(|s| s.to_string()).collect(),
        entity_values: values.iter().map(|(_, v)| v.to_vec()).collect(),
        value_types: values.iter().map(|(vt, _)| *vt).collect(),
    }
}

#[test]
fn test_serialize_deserialize_single_key() {
    let ek = make_entity_key(vec!["driver_id"], vec![(ValueType::Int64, &1002i64.to_le_bytes())]);
    let serialized = serialize_entity_key_v3(&ek);
    let deserialized = deserialize_entity_key_v3(&serialized).unwrap();
    assert_eq!(ek.join_keys, deserialized.join_keys);
    assert_eq!(ek.entity_values, deserialized.entity_values);
    assert_eq!(ek.value_types, deserialized.value_types);
}

#[test]
fn test_serialize_deserialize_multi_key() {
    let ek = make_entity_key(
        vec!["customer_id", "region"],
        vec![(ValueType::Int64, &123i64.to_le_bytes()), (ValueType::String, b"us-east")],
    );
    let serialized = serialize_entity_key_v3(&ek);
    let deserialized = deserialize_entity_key_v3(&serialized).unwrap();
    assert_eq!(deserialized.join_keys[0], "customer_id");
    assert_eq!(deserialized.join_keys[1], "region");
    assert_eq!(deserialized.value_types[0], ValueType::Int64);
    assert_eq!(deserialized.value_types[1], ValueType::String);
}

#[test]
fn test_serialize_deserialize_string_key() {
    let ek = make_entity_key(vec!["user_id"], vec![(ValueType::String, b"user_abc123")]);
    let serialized = serialize_entity_key_v3(&ek);
    let deserialized = deserialize_entity_key_v3(&serialized).unwrap();
    assert_eq!(deserialized.join_keys[0], "user_id");
    assert_eq!(deserialized.entity_values[0], b"user_abc123");
    assert_eq!(deserialized.value_types[0], ValueType::String);
}

#[test]
fn test_serialize_deserialize_int32_key() {
    let ek = make_entity_key(vec!["score"], vec![(ValueType::Int32, &42i32.to_le_bytes())]);
    let serialized = serialize_entity_key_v3(&ek);
    let deserialized = deserialize_entity_key_v3(&serialized).unwrap();
    assert_eq!(deserialized.value_types[0], ValueType::Int32);
    assert_eq!(deserialized.entity_values[0], 42i32.to_le_bytes().to_vec());
}

#[test]
fn test_serialize_deserialize_double_key() {
    let ek = make_entity_key(vec!["amount"], vec![(ValueType::Double, &3.14f64.to_le_bytes())]);
    let serialized = serialize_entity_key_v3(&ek);
    let deserialized = deserialize_entity_key_v3(&serialized).unwrap();
    assert_eq!(deserialized.value_types[0], ValueType::Double);
    assert_eq!(deserialized.entity_values[0], 3.14f64.to_le_bytes().to_vec());
}

#[test]
fn test_serialize_entity_key_prefix() {
    let prefix = serialize_entity_key_prefix(&["driver_id".to_string()]);
    assert!(prefix.len() >= 4);
    let num_keys = u32::from_le_bytes(prefix[..4].try_into().unwrap());
    assert_eq!(num_keys, 1);

    let multi_prefix = serialize_entity_key_prefix(&["customer_id".to_string(), "region".to_string()]);
    assert!(multi_prefix.len() > prefix.len());
    let multi_num_keys = u32::from_le_bytes(multi_prefix[..4].try_into().unwrap());
    assert_eq!(multi_num_keys, 2);

    let key1_len_offset = 4 + 4;
    let key1_len =
        u32::from_le_bytes(multi_prefix[key1_len_offset..key1_len_offset + 4].try_into().unwrap()) as usize;
    let key1_start = key1_len_offset + 4;
    let key1 = String::from_utf8(multi_prefix[key1_start..key1_start + key1_len].to_vec()).unwrap();
    assert_eq!(key1, "customer_id");
}

#[test]
fn test_deserialize_invalid_short() {
    assert!(deserialize_entity_key_v3(&[0x01, 0x00]).is_err());
}

#[test]
fn test_entity_key_size() {
    let ek = make_entity_key(vec!["driver_id"], vec![(ValueType::Int64, &1002i64.to_le_bytes())]);
    let serialized = serialize_entity_key_v3(&ek);
    assert_eq!(serialized.len(), 37);
}

#[test]
fn test_multiple_keys_in_order() {
    let ek = make_entity_key(
        vec!["z_key", "a_key"],
        vec![(ValueType::String, b"z_val"), (ValueType::String, b"a_val")],
    );
    let serialized = serialize_entity_key_v3(&ek);
    let deserialized = deserialize_entity_key_v3(&serialized).unwrap();
    assert_eq!(deserialized.join_keys[0], "a_key");
    assert_eq!(deserialized.join_keys[1], "z_key");
    assert_eq!(deserialized.entity_values[0], b"a_val");
    assert_eq!(deserialized.entity_values[1], b"z_val");
}

#[test]
fn serialized_bytes_of_one_key() {
    let ek = make_entity_key(vec!["k"], vec![(ValueType::String, b"v")]);
    let bytes = serialize_entity_key_v3(&ek);
    let expected: Vec<u8> = vec![
        1, 0, 0, 0, // one key
        2, 0, 0, 0, // key type: string
        1, 0, 0, 0, b'k', // the key
        2, 0, 0, 0, // value type: string
        1, 0, 0, 0, b'v', // the value
    ];
    assert_eq!(bytes, expected);
}

#[test]
fn deserialize_truncated_key_section() {
    let bytes: Vec<u8> = vec![1, 0, 0, 0, 2, 0, 0, 0, 9, 0, 0, 0, b'a'];
    assert!(deserialize_entity_key_v3(&bytes).is_err());
}

#[test]
fn prefix_length_formula() {
    let keys = vec!["région".to_string(), "a".to_string()];
    let prefix = serialize_entity_key_prefix(&keys);
    // 4 bytes of count, then per key 8 bytes and its UTF-8 bytes.
    assert_eq!(prefix.len(), 4 + (8 + "région".len()) + (8 + 1));
}

#[test]
fn encoding_ignores_the_order_of_keys() {
    let a = make_entity_key(
        vec!["driver_id", "city"],
        vec![(ValueType::Int64, b"7"), (ValueType::String, b"paris")],
    );
    let b = make_entity_key(
        vec!["city", "driver_id"],
        vec![(ValueType::String, b"paris"), (ValueType::Int64, b"7")],
    );
    assert_eq!(serialize_entity_key_v3(&a), serialize_entity_key_v3(&b));
    let c = make_entity_key(
        vec!["city", "driver_id"],
        vec![(ValueType::String, b"paris"), (ValueType::Int64, b"8")],
    );
    assert_ne!(serialize_entity_key_v3(&a), serialize_entity_key_v3(&c));
    let d = make_entity_key(
        vec!["city", "driver_id"],
        vec![(ValueType::String, b"paris"), (ValueType::String, b"7")],
    );
    assert_ne!(serialize_entity_key_v3(&a), serialize_entity_key_v3(&d));
}
