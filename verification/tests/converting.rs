use datafixerupper::json::JsonValue;
use datafixerupper::json_ops::JsonOps;
use datafixerupper::key_compressor::KeyCompressor;
use datafixerupper::nbt_ops::{NbtOps, NbtTag};
use datafixerupper::number::Number;

#[test]
fn json_tree_converts_to_nbt() {
    let json_ops = JsonOps::new();
    let nbt_ops = NbtOps;
    let value = JsonValue::Obj(vec![
        ("name".to_string(), JsonValue::Str("anvil".to_string())),
        ("count".to_string(), JsonValue::Number(Number::Int(3))),
        (
            "codes".to_string(),
            JsonValue::Arr(vec![
                JsonValue::Number(Number::Byte(1)),
                JsonValue::Number(Number::Byte(2)),
            ]),
        ),
        ("heavy".to_string(), JsonValue::Bool(true)),
        ("extra".to_string(), JsonValue::Null),
    ]);
    let converted = json_ops.convert_to(&nbt_ops, &value);
    assert_eq!(
        converted,
        NbtTag::Compound(vec![
            ("name".to_string(), NbtTag::Str("anvil".to_string())),
            ("count".to_string(), NbtTag::Int(3)),
            // A list of bytes collects into the dedicated byte-array tag.
            ("codes".to_string(), NbtTag::ByteArray(vec![1, 2])),
            ("heavy".to_string(), NbtTag::Byte(1)),
            ("extra".to_string(), NbtTag::End),
        ])
    );
}

#[test]
fn mixed_json_array_converts_to_wrapped_nbt_list() {
    let json_ops = JsonOps::new();
    let nbt_ops = NbtOps;
    let value = JsonValue::Arr(vec![
        JsonValue::Number(Number::Int(7)),
        JsonValue::Str("seven".to_string()),
    ]);
    let converted = json_ops.convert_to(&nbt_ops, &value);
    // A mixed list is heterogeneous: every element is wrapped in a
    // single-entry compound under the empty key.
    let expected = NbtTag::List(vec![
        NbtTag::Compound(vec![(String::new(), NbtTag::Int(7))]),
        NbtTag::Compound(vec![(String::new(), NbtTag::Str("seven".to_string()))]),
    ]);
    assert_eq!(converted, expected);

    // Converting back unwraps the wrappers again.
    let back = nbt_ops.convert_to(&json_ops, &expected);
    assert_eq!(back, value);
}

#[test]
fn nbt_tree_converts_to_json() {
    let json_ops = JsonOps::new();
    let nbt_ops = NbtOps;
    let tag = NbtTag::Compound(vec![
        ("id".to_string(), NbtTag::Long(77)),
        (
            "temperature".to_string(),
            NbtTag::Double((21.5f64).to_bits()),
        ),
        ("levels".to_string(), NbtTag::IntArray(vec![4, 5, 6])),
        ("raw".to_string(), NbtTag::ByteArray(vec![255, 1])),
    ]);
    let converted = nbt_ops.convert_to(&json_ops, &tag);
    assert_eq!(
        converted,
        JsonValue::Obj(vec![
            ("id".to_string(), JsonValue::Number(Number::Long(77))),
            (
                "temperature".to_string(),
                JsonValue::Number(Number::Double((21.5f64).to_bits()))
            ),
            (
                "levels".to_string(),
                JsonValue::Arr(vec![
                    JsonValue::Number(Number::Int(4)),
                    JsonValue::Number(Number::Int(5)),
                    JsonValue::Number(Number::Int(6)),
                ])
            ),
            // Bytes convert as signed values.
            (
                "raw".to_string(),
                JsonValue::Arr(vec![
                    JsonValue::Number(Number::Byte(-1)),
                    JsonValue::Number(Number::Byte(1)),
                ])
            ),
        ])
    );
}

#[test]
fn dynamic_keys_compress_through_the_adapter() {
    let ops = JsonOps::new();
    let compressor = KeyCompressor::of_keys(&vec!["name".to_string(), "pages".to_string()]);
    assert_eq!(
        compressor.compress_key(&JsonValue::Str("pages".to_string()), &ops),
        Some(1)
    );
    assert_eq!(
        compressor.compress_key(&JsonValue::Str("author".to_string()), &ops),
        None
    );
    // A key that does not read as a string under the adapter compresses to
    // nothing.
    assert_eq!(compressor.compress_key(&JsonValue::Bool(true), &ops), None);
}
