use datafixerupper::codecs::either::new_either_codec;
use datafixerupper::codecs::primitive::{DoubleCodec, IntCodec, StringCodec};
use datafixerupper::codecs::unbounded_map::unbounded_map;
use datafixerupper::coders::{Decoder, Encoder};
use datafixerupper::either::Either;
use datafixerupper::json::JsonValue;
use datafixerupper::json_ops::JsonOps;
use datafixerupper::number::Number;
use datafixerupper::samples::complex_number_codec;

#[test]
fn simple() {
    let ops = JsonOps::new();
    let either_int_string = new_either_codec(IntCodec, StringCodec);

    // Encoding

    assert_eq!(
        either_int_string
            .encode_start(&Either::Left(5), &ops)
            .unwrap(),
        JsonValue::Number(Number::Int(5))
    );

    assert_eq!(
        either_int_string
            .encode_start(&Either::Right("I am some text.".to_string()), &ops)
            .unwrap(),
        JsonValue::Str("I am some text.".to_string())
    );

    // Decoding

    assert_eq!(
        either_int_string
            .parse(JsonValue::Number(Number::Int(-238)), &ops)
            .unwrap(),
        Either::Left(-238)
    );
    assert_eq!(
        either_int_string
            .parse(JsonValue::Str("hello".to_string()), &ops)
            .unwrap(),
        Either::Right("hello".to_string())
    );
    assert!(either_int_string
        .parse(JsonValue::Bool(true), &ops)
        .get_message()
        .unwrap()
        .starts_with("Failed to parse either."));
}

// A situation where two codecs could possibly decode valid but different
// values. This test only checks decoding.
#[test]
fn intersecting_codecs() {
    let ops = JsonOps::new();

    let complex_number_first = new_either_codec(
        complex_number_codec(),
        unbounded_map(StringCodec, DoubleCodec),
    );
    let double_map_first = new_either_codec(
        unbounded_map(StringCodec, DoubleCodec),
        complex_number_codec(),
    );

    let complex_input = JsonValue::Obj(vec![
        (
            "real".to_string(),
            JsonValue::Number(Number::Double((10.1f64).to_bits())),
        ),
        (
            "imaginary".to_string(),
            JsonValue::Number(Number::Double((-4.5f64).to_bits())),
        ),
    ]);

    // We expect a complex number first, as that is the first to be checked.
    let complex = complex_number_first
        .parse(complex_input, &ops)
        .unwrap()
        .into_left()
        .expect("Expected complex number");
    assert_eq!(complex.real.0, (10.1f64).to_bits());
    assert_eq!(complex.imaginary.0, (-4.5f64).to_bits());

    // This should be a map, as the complex number codec fails due to a
    // missing field.
    let map_input = JsonValue::Obj(vec![
        (
            "real".to_string(),
            JsonValue::Number(Number::Double((10.1f64).to_bits())),
        ),
        (
            "second".to_string(),
            JsonValue::Number(Number::Double((-4.5f64).to_bits())),
        ),
        (
            "third".to_string(),
            JsonValue::Number(Number::Double((1.0f64).to_bits())),
        ),
    ]);
    let map = complex_number_first
        .parse(map_input, &ops)
        .unwrap()
        .into_right()
        .expect("Expected double map");
    assert_eq!(map.len(), 3);

    let four_input = JsonValue::Obj(vec![
        (
            "a".to_string(),
            JsonValue::Number(Number::Double((1.0f64).to_bits())),
        ),
        (
            "b".to_string(),
            JsonValue::Number(Number::Double((2.0f64).to_bits())),
        ),
        (
            "c".to_string(),
            JsonValue::Number(Number::Double((3.0f64).to_bits())),
        ),
        (
            "d".to_string(),
            JsonValue::Number(Number::Double((4.0f64).to_bits())),
        ),
    ]);
    let map = double_map_first
        .parse(four_input, &ops)
        .unwrap()
        .into_left()
        .expect("Expected double map");
    assert_eq!(map.len(), 4);
}
