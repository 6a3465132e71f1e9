use datafixerupper::coders::{Decoder, Encoder};
use datafixerupper::json::JsonValue;
use datafixerupper::json_ops::JsonOps;
use datafixerupper::number::Number;
use datafixerupper::samples::{book_codec, Book};

#[test]
fn compressed_map_packs_fields_as_list() {
    let ops = JsonOps::new_compressed();
    let codec = book_codec();

    let object = Book {
        name: "Sample Book".to_string(),
        author: "Sample Author".to_string(),
        pages: 16,
    };

    // Under a compressing adapter, the fixed-schema map encodes as a list
    // whose positions follow the schema's key order.
    let encoded = codec.encode_start(&object, &ops).unwrap();
    assert_eq!(
        encoded,
        JsonValue::Arr(vec![
            JsonValue::Str("Sample Book".to_string()),
            JsonValue::Str("Sample Author".to_string()),
            JsonValue::Number(Number::Int(16)),
        ])
    );

    // The packed list decodes back to the record.
    let decoded = codec.parse(encoded, &ops).unwrap();
    assert_eq!(decoded, object);

    // A non-list input is rejected under a compressing adapter.
    let rejected = codec.parse(JsonValue::Bool(true), &ops);
    assert!(rejected.is_error());
    assert_eq!(rejected.get_message().unwrap(), "Input is not a list");
}

#[test]
fn error_messages_name_their_causes() {
    let ops = JsonOps::new();

    let range = datafixerupper::codec::int_range(1, 5);
    let out_of_range = range.parse(JsonValue::Number(Number::Int(9)), &ops);
    assert_eq!(
        out_of_range.get_message().unwrap(),
        "Value 9 is outside range [1, 5]"
    );

    // A floating-point bound is named by the width of its encoding and its
    // raw bit pattern.
    let percentage = datafixerupper::codec::double_range(
        datafixerupper::number::DoubleBits((0.0f64).to_bits()),
        datafixerupper::number::DoubleBits((100.0f64).to_bits()),
    );
    let too_big = percentage.parse(
        JsonValue::Number(Number::Double((134.4f64).to_bits())),
        &ops,
    );
    assert_eq!(
        too_big.get_message().unwrap(),
        format!(
            "Value binary64:{} is outside range [binary64:{}, binary64:{}]",
            (134.4f64).to_bits(),
            (0.0f64).to_bits(),
            (100.0f64).to_bits()
        )
    );

    let unsigned = datafixerupper::codec::unsigned_byte_codec();
    let negative = unsigned.parse(JsonValue::Number(Number::Byte(-3)), &ops);
    assert_eq!(
        negative.get_message().unwrap(),
        "Could not fit i8 into u8"
    );
    let too_large = unsigned.encode_start(&200u8, &ops);
    assert_eq!(
        too_large.get_message().unwrap(),
        "Could not fit u8 into i8"
    );

    let list_of_ints = datafixerupper::codec::unbounded_list(
        datafixerupper::codecs::primitive::IntCodec,
    );
    let not_an_array = list_of_ints.parse(JsonValue::Bool(false), &ops);
    assert_eq!(not_an_array.get_message().unwrap(), "Not a JSON array: false");

    let scores = datafixerupper::codecs::unbounded_map::unbounded_map(
        datafixerupper::codecs::primitive::StringCodec,
        datafixerupper::codecs::primitive::IntCodec,
    );
    let not_an_object = scores.parse(JsonValue::Bool(false), &ops);
    assert_eq!(not_an_object.get_message().unwrap(), "Not a JSON object: false");
}
