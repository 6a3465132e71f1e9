use datafixerupper::codec::list;
use datafixerupper::codecs::primitive::{
    BoolCodec, ByteCodec, FloatCodec, IntCodec, StringCodec,
};
use datafixerupper::coders::{Decoder, Encoder};
use datafixerupper::json::JsonValue;
use datafixerupper::json_ops::JsonOps;
use datafixerupper::key_compressor::KeyCompressor;
use datafixerupper::number::{FloatBits, Number};

#[test]
fn json_ops_primitives() {
    let ops = JsonOps::new();

    assert_eq!(
        BoolCodec.encode_start(&true, &ops).unwrap(),
        JsonValue::Bool(true)
    );

    assert_eq!(
        StringCodec
            .encode_start(&"Hello world!".to_string(), &ops)
            .unwrap(),
        JsonValue::Str("Hello world!".to_string())
    );

    assert_eq!(
        IntCodec.encode_start(&90, &ops).unwrap(),
        JsonValue::Number(Number::Int(90))
    );

    assert_eq!(
        ByteCodec.encode_start(&127, &ops).unwrap(),
        JsonValue::Number(Number::Byte(127))
    );

    assert_eq!(
        FloatCodec
            .encode_start(&FloatBits((0.125f32).to_bits()), &ops)
            .unwrap(),
        JsonValue::Number(Number::Float((0.125f32).to_bits()))
    );
}

#[test]
fn lists() {
    let ops = JsonOps::new();

    {
        let bool_list_codec = list(BoolCodec, 2, 4);

        let two = JsonValue::Arr(vec![JsonValue::Bool(true), JsonValue::Bool(true)]);
        assert!(bool_list_codec.decode(two, &ops).is_success());

        let three = JsonValue::Arr(vec![
            JsonValue::Bool(true),
            JsonValue::Bool(true),
            JsonValue::Bool(false),
        ]);
        assert!(bool_list_codec.decode(three, &ops).is_success());

        let mixed = JsonValue::Arr(vec![
            JsonValue::Bool(true),
            JsonValue::Number(Number::Int(1)),
        ]);
        assert!(bool_list_codec.decode(mixed, &ops).is_error());

        assert!(bool_list_codec
            .decode(JsonValue::Arr(vec![]), &ops)
            .is_error());

        let four = JsonValue::Arr(vec![
            JsonValue::Bool(true),
            JsonValue::Bool(false),
            JsonValue::Bool(true),
            JsonValue::Bool(false),
        ]);
        assert!(bool_list_codec.decode(four, &ops).is_success());
    }

    {
        // A list codec of another list codec of strings.
        let nested = list(list(StringCodec, 1, 3), 1, 2);

        assert!(nested.decode(JsonValue::Arr(vec![]), &ops).is_error());

        let two_rows = JsonValue::Arr(vec![
            JsonValue::Arr(vec![
                JsonValue::Str("a".to_string()),
                JsonValue::Str("b".to_string()),
            ]),
            JsonValue::Arr(vec![JsonValue::Str("c".to_string())]),
        ]);
        assert!(nested.decode(two_rows, &ops).is_success());

        let too_wide = JsonValue::Arr(vec![JsonValue::Arr(vec![
            JsonValue::Str("a".to_string()),
            JsonValue::Str("b".to_string()),
            JsonValue::Str("c".to_string()),
            JsonValue::Str("d".to_string()),
            JsonValue::Str("e".to_string()),
        ])]);
        assert!(nested.decode(too_wide, &ops).is_error());

        let mixed = JsonValue::Arr(vec![
            JsonValue::Arr(vec![
                JsonValue::Str("1".to_string()),
                JsonValue::Number(Number::Int(2)),
                JsonValue::Str("3".to_string()),
            ]),
            JsonValue::Arr(vec![
                JsonValue::Str("4".to_string()),
                JsonValue::Str("5".to_string()),
            ]),
        ]);
        assert!(nested.decode(mixed, &ops).is_error());
    }
}

#[test]
fn adapter_reads_and_merges() {
    let ops = JsonOps::new();

    assert!(ops.get_bool(&JsonValue::Bool(true)).is_success());
    assert!(ops.get_bool(&JsonValue::Number(Number::Int(0))).is_error());

    assert_eq!(
        JsonOps::get_as_string(&JsonValue::Number(Number::Int(-68))),
        Some("-68".to_string())
    );
    assert_eq!(
        JsonOps::get_as_string(&JsonValue::Bool(true)),
        Some("true".to_string())
    );
    assert_eq!(JsonOps::get_as_string(&JsonValue::Null), None);

    let merged = ops.merge_into_map(
        JsonValue::Null,
        JsonValue::Str("k".to_string()),
        JsonValue::Number(Number::Int(1)),
    );
    assert_eq!(
        merged.unwrap(),
        JsonValue::Obj(vec![(
            "k".to_string(),
            JsonValue::Number(Number::Int(1))
        )])
    );

    let replaced = ops.merge_into_map(
        JsonValue::Obj(vec![(
            "k".to_string(),
            JsonValue::Number(Number::Int(1)),
        )]),
        JsonValue::Str("k".to_string()),
        JsonValue::Number(Number::Int(2)),
    );
    assert_eq!(
        replaced.unwrap(),
        JsonValue::Obj(vec![(
            "k".to_string(),
            JsonValue::Number(Number::Int(2))
        )])
    );

    let invalid_key = ops.merge_into_map(
        JsonValue::Null,
        JsonValue::Null,
        JsonValue::Number(Number::Int(1)),
    );
    assert!(invalid_key.is_error());

    let not_a_list = ops.merge_into_list(JsonValue::Bool(true), JsonValue::Null);
    assert!(not_a_list.is_error());

    let removed = ops.remove(
        JsonValue::Obj(vec![
            ("a".to_string(), JsonValue::Number(Number::Int(1))),
            ("b".to_string(), JsonValue::Number(Number::Int(2))),
        ]),
        "a",
    );
    assert_eq!(
        removed,
        JsonValue::Obj(vec![("b".to_string(), JsonValue::Number(Number::Int(2)))])
    );
}

#[test]
fn key_compression() {
    let keys = vec![
        "alpha".to_string(),
        "beta".to_string(),
        "alpha".to_string(),
        "gamma".to_string(),
    ];
    let compressor = KeyCompressor::of_keys(&keys);

    assert_eq!(compressor.size(), 3);
    assert_eq!(compressor.compress_key_str("alpha"), Some(0));
    assert_eq!(compressor.compress_key_str("beta"), Some(1));
    assert_eq!(compressor.compress_key_str("gamma"), Some(2));
    assert_eq!(compressor.compress_key_str("delta"), None);
    assert_eq!(compressor.decompress_key_str(1), Some("beta".to_string()));
    assert_eq!(compressor.decompress_key_str(3), None);
}

#[test]
fn compressed_adapter_accepts_number_strings() {
    let ops = JsonOps::new_compressed();
    assert!(ops.compress_maps());
    let read = ops.get_string(&JsonValue::Number(Number::Int(12)));
    assert_eq!(read.unwrap(), "12".to_string());

    let number = ops.get_number(&JsonValue::Str("-47".to_string()));
    assert_eq!(number.unwrap(), Number::Int(-47));
    assert!(ops.get_number(&JsonValue::Str("4x".to_string())).is_error());

    let strict = JsonOps::new();
    assert!(strict
        .get_string(&JsonValue::Number(Number::Int(12)))
        .is_error());
    assert!(strict
        .get_number(&JsonValue::Str("-47".to_string()))
        .is_error());
}
