use datafixerupper::codec::{flat_xmap, unsigned_long_codec, validate, UintKeyXmap};
use datafixerupper::codecs::primitive::{BoolCodec, IntCodec, StringCodec};
use datafixerupper::codecs::unbounded_map::unbounded_map;
use datafixerupper::codecs::validated::new_validated_codec;
use datafixerupper::coders::{Decoder, Encoder};
use datafixerupper::json::JsonValue;
use datafixerupper::json_ops::JsonOps;
use datafixerupper::number::Number;
use datafixerupper::map_codec::{field, xmap_map, MapCodecCodec};
use datafixerupper::map_codecs::simple::simple_map;
use datafixerupper::samples::{Meters, MetersXmap};
use datafixerupper::validators::{NonEmptyEntriesValidator, SingleCharacterValidator};

#[test]
fn simple_encoding() {
    let ops = JsonOps::new();
    let scores_codec = unbounded_map(StringCodec, IntCodec);

    let map = vec![
        ("Amy".to_string(), 10),
        ("Leo".to_string(), 24),
        ("Patrick".to_string(), -65),
    ];

    assert_eq!(
        scores_codec
            .encode_start(&map, &ops)
            .expect("Encoding scores failed"),
        JsonValue::Obj(vec![
            ("Amy".to_string(), JsonValue::Number(Number::Int(10))),
            ("Leo".to_string(), JsonValue::Number(Number::Int(24))),
            ("Patrick".to_string(), JsonValue::Number(Number::Int(-65))),
        ])
    );
}

#[test]
fn unbounded_map_decoding() {
    let ops = JsonOps::new();
    // A codec storing a frequency for each letter.
    // Each key must only be 1 character long (to make it a letter).
    // There must be at least 1 key.
    let letter_frequency_codec = validate(
        unbounded_map(
            new_validated_codec(StringCodec, SingleCharacterValidator),
            unsigned_long_codec(),
        ),
        NonEmptyEntriesValidator,
    );

    let good = JsonValue::Obj(vec![
        ("a".to_string(), JsonValue::Number(Number::Long(13))),
        ("c".to_string(), JsonValue::Number(Number::Long(34))),
        ("x".to_string(), JsonValue::Number(Number::Long(1))),
        ("e".to_string(), JsonValue::Number(Number::Long(21))),
    ]);
    assert!(letter_frequency_codec.decode(good, &ops).is_success());

    let bad_key = JsonValue::Obj(vec![
        ("b".to_string(), JsonValue::Number(Number::Long(45))),
        ("w".to_string(), JsonValue::Number(Number::Long(10))),
        ("l".to_string(), JsonValue::Number(Number::Long(90))),
        ("word".to_string(), JsonValue::Number(Number::Long(5))),
    ]);
    assert!(letter_frequency_codec.decode(bad_key, &ops).is_error());

    let empty = JsonValue::Obj(vec![]);
    assert!(letter_frequency_codec.decode(empty, &ops).is_error());
}

#[test]
fn duplicate_keys_are_rejected() {
    let ops = JsonOps::new();
    let scores_codec = unbounded_map(StringCodec, IntCodec);

    let duplicated = JsonValue::Obj(vec![
        ("a".to_string(), JsonValue::Number(Number::Int(1))),
        ("a".to_string(), JsonValue::Number(Number::Int(2))),
    ]);
    let decoded = scores_codec.decode(duplicated, &ops);
    assert!(decoded.is_error());
    assert!(decoded
        .get_message()
        .unwrap()
        .contains("Duplicate entry for key"));
}

#[test]
fn number_key_encoding() {
    // A basic implementation to check if a number is prime.
    fn is_prime(number: u32) -> bool {
        if number < 2 {
            return false;
        }
        for i in 2..number {
            if number % i == 0 {
                return false;
            }
        }
        true
    }

    let ops = JsonOps::new();
    // A codec to store whether a number is prime or not.
    // A transformer keeps the keys in string form even while working with
    // numeric keys.
    let prime_map_codec = unbounded_map(flat_xmap(StringCodec, UintKeyXmap), BoolCodec);

    // Calculate the map for the first 20 numbers.
    let mut map: Vec<(u32, bool)> = Vec::new();
    for i in 1..=20u32 {
        map.push((i, is_prime(i)));
    }

    let expected = JsonValue::Obj(
        (1..=20u32)
            .map(|i| (i.to_string(), JsonValue::Bool(is_prime(i))))
            .collect(),
    );

    assert_eq!(
        prime_map_codec
            .encode_start(&map, &ops)
            .expect("Encoding prime map failed"),
        expected
    );

    // Decoding brings the numeric keys back.
    let decoded = prime_map_codec.parse(expected, &ops).unwrap();
    assert_eq!(decoded, map);
}

#[test]
fn simple_map_codec_round_trips_and_compresses() {
    let ops = JsonOps::new();
    let codec = MapCodecCodec::new(simple_map(
        StringCodec,
        IntCodec,
        vec!["hp".to_string(), "mana".to_string()],
    ));

    let value = vec![("hp".to_string(), 20), ("mana".to_string(), 50)];
    let encoded = codec.encode_start(&value, &ops).unwrap();
    assert_eq!(
        encoded,
        JsonValue::Obj(vec![
            ("hp".to_string(), JsonValue::Number(Number::Int(20))),
            ("mana".to_string(), JsonValue::Number(Number::Int(50))),
        ])
    );
    let decoded = codec.parse(encoded, &ops).unwrap();
    assert_eq!(decoded, value);

    // Under a compressing adapter the known keys pack the map as a list.
    let compressed_ops = JsonOps::new_compressed();
    let packed = codec.encode_start(&value, &compressed_ops).unwrap();
    assert_eq!(
        packed,
        JsonValue::Arr(vec![
            JsonValue::Number(Number::Int(20)),
            JsonValue::Number(Number::Int(50)),
        ])
    );
    let unpacked = codec.parse(packed, &compressed_ops).unwrap();
    assert_eq!(unpacked, value);
}

#[test]
fn xmap_map_codec_transforms_a_map_codec() {
    let ops = JsonOps::new();
    let codec = MapCodecCodec::new(xmap_map(field(IntCodec, "distance"), MetersXmap));

    let encoded = codec.encode_start(&Meters(42), &ops).unwrap();
    assert_eq!(
        encoded,
        JsonValue::Obj(vec![(
            "distance".to_string(),
            JsonValue::Number(Number::Int(42))
        )])
    );
    let decoded = codec.parse(encoded, &ops).unwrap();
    assert_eq!(decoded, Meters(42));
}
