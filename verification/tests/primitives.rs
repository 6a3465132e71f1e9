use datafixerupper::codecs::primitive::{
    BoolCodec, ByteBufferCodec, ByteCodec, IntCodec, IntStreamCodec, LongCodec, LongStreamCodec,
    ShortCodec, StringCodec,
};
use datafixerupper::coders::{Decoder, Encoder};
use datafixerupper::json::JsonValue;
use datafixerupper::json_ops::JsonOps;
use datafixerupper::number::Number;

#[test]
fn primitive_encoding() {
    let ops = JsonOps::new();

    assert_eq!(
        IntCodec.encode_start(&3, &ops).unwrap(),
        JsonValue::Number(Number::Int(3))
    );
    assert_eq!(
        ByteCodec.encode_start(&-68i8, &ops).unwrap(),
        JsonValue::Number(Number::Byte(-68))
    );
    assert_eq!(
        LongCodec.encode_start(&-913813743, &ops).unwrap(),
        JsonValue::Number(Number::Long(-913813743))
    );

    assert_eq!(
        StringCodec
            .encode_start(&"Hello, world!".to_string(), &ops)
            .unwrap(),
        JsonValue::Str("Hello, world!".to_string())
    );
    assert_eq!(
        StringCodec.encode_start(&String::new(), &ops).unwrap(),
        JsonValue::Str(String::new())
    );

    assert_eq!(
        ByteBufferCodec.encode_start(&vec![1i8, 2i8, 3i8], &ops).unwrap(),
        JsonValue::Arr(vec![
            JsonValue::Number(Number::Byte(1)),
            JsonValue::Number(Number::Byte(2)),
            JsonValue::Number(Number::Byte(3)),
        ])
    );
    assert_eq!(
        LongStreamCodec.encode_start(&vec![4, 6, 9, 12], &ops).unwrap(),
        JsonValue::Arr(vec![
            JsonValue::Number(Number::Long(4)),
            JsonValue::Number(Number::Long(6)),
            JsonValue::Number(Number::Long(9)),
            JsonValue::Number(Number::Long(12)),
        ])
    );
}

#[test]
fn primitive_decoding() {
    let ops = JsonOps::new();

    assert!(IntCodec
        .decode(JsonValue::Number(Number::Int(-2)), &ops)
        .is_success());

    assert!(ShortCodec
        .decode(JsonValue::Str("hello".to_string()), &ops)
        .is_error());
    assert!(BoolCodec
        .decode(JsonValue::Number(Number::Int(0)), &ops)
        .is_error());

    assert!(IntStreamCodec
        .decode(
            JsonValue::Arr(vec![
                JsonValue::Number(Number::Int(1)),
                JsonValue::Number(Number::Int(2)),
                JsonValue::Number(Number::Int(3)),
            ]),
            &ops
        )
        .is_success());
    assert!(LongStreamCodec
        .decode(JsonValue::Arr(Vec::new()), &ops)
        .is_success());
    assert!(ByteBufferCodec
        .decode(
            JsonValue::Arr(vec![JsonValue::Str("not a number".to_string())]),
            &ops
        )
        .is_error());

    assert!(StringCodec
        .decode(JsonValue::Str("cool".to_string()), &ops)
        .is_success());
    assert!(StringCodec
        .decode(JsonValue::Number(Number::Int(1)), &ops)
        .is_error());
}

#[test]
fn int_codec_scenario() {
    let ops = JsonOps::new();

    assert_eq!(
        IntCodec.encode_start(&-42, &ops).unwrap(),
        JsonValue::Number(Number::Int(-42))
    );
    let failed = IntCodec.parse(JsonValue::Bool(true), &ops);
    assert!(failed.is_error());
    assert!(failed.get_message().unwrap().starts_with("Not a number"));
}
