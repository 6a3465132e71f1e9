use datafixerupper::codec::{lazy, limited_list, list};
use datafixerupper::samples::IntListCodecSupplier;
use datafixerupper::codecs::primitive::{BoolCodec, DoubleCodec, IntCodec, ShortCodec, StringCodec};
use datafixerupper::coders::{Decoder, Encoder};
use datafixerupper::json::JsonValue;
use datafixerupper::json_ops::JsonOps;
use datafixerupper::number::{DoubleBits, Number};

fn ints(values: &[i32]) -> JsonValue {
    JsonValue::Arr(
        values
            .iter()
            .map(|v| JsonValue::Number(Number::Int(*v)))
            .collect(),
    )
}

fn doubles(values: &[f64]) -> JsonValue {
    JsonValue::Arr(
        values
            .iter()
            .map(|v| JsonValue::Number(Number::Double(v.to_bits())))
            .collect(),
    )
}

#[test]
fn list_encoding() {
    let ops = JsonOps::new();

    {
        let int_list_codec = list(IntCodec, 1, 3);

        assert_eq!(
            int_list_codec.encode_start(&vec![1, 2], &ops).unwrap(),
            ints(&[1, 2])
        );
        assert!(int_list_codec.encode_start(&vec![], &ops).is_error());
        assert!(int_list_codec
            .encode_start(&vec![50, 52, 54, 56], &ops)
            .is_error());
    }

    {
        let string_list_codec = limited_list(StringCodec, 2);

        assert_eq!(
            string_list_codec
                .encode_start(&vec!["a".to_string(), "b".to_string()], &ops)
                .unwrap(),
            JsonValue::Arr(vec![
                JsonValue::Str("a".to_string()),
                JsonValue::Str("b".to_string()),
            ])
        );
        assert_eq!(
            string_list_codec
                .encode_start(&vec!["one".to_string()], &ops)
                .unwrap(),
            JsonValue::Arr(vec![JsonValue::Str("one".to_string())])
        );
        assert!(string_list_codec
            .encode_start(
                &vec!["1".to_string(), "2".to_string(), "3".to_string()],
                &ops
            )
            .is_error());
    }

    {
        // The inner lists have a max size of 2, while the main list has a
        // max size of 3.
        let bool_list_list_codec = limited_list(limited_list(BoolCodec, 2), 3);

        assert_eq!(
            bool_list_list_codec
                .encode_start(&vec![vec![true, true]], &ops)
                .unwrap(),
            JsonValue::Arr(vec![JsonValue::Arr(vec![
                JsonValue::Bool(true),
                JsonValue::Bool(true),
            ])])
        );
        assert_eq!(
            bool_list_list_codec
                .encode_start(&vec![vec![], vec![false, true]], &ops)
                .unwrap(),
            JsonValue::Arr(vec![
                JsonValue::Arr(vec![]),
                JsonValue::Arr(vec![JsonValue::Bool(false), JsonValue::Bool(true)]),
            ])
        );
        assert!(bool_list_list_codec
            .encode_start(&vec![vec![true, false, true, false]], &ops)
            .is_error());
    }
}

#[test]
fn list_decoding() {
    let ops = JsonOps::new();

    {
        let short_list_codec = list(ShortCodec, 2, 4);

        assert!(short_list_codec.decode(ints(&[1, 2]), &ops).is_success());
        assert!(short_list_codec
            .decode(ints(&[1, 2, 6, 24]), &ops)
            .is_success());
        assert!(short_list_codec
            .decode(ints(&[1, 2, 6, 24, 120]), &ops)
            .is_error());
        assert!(short_list_codec
            .decode(ints(&[-45, 252, 1000]), &ops)
            .is_success());
        assert!(short_list_codec
            .decode(
                JsonValue::Arr(vec![
                    JsonValue::Str("string".to_string()),
                    JsonValue::Str("b".to_string()),
                ]),
                &ops
            )
            .is_error());
        assert!(short_list_codec
            .decode(
                JsonValue::Arr(vec![
                    JsonValue::Str("1".to_string()),
                    JsonValue::Str("2".to_string()),
                ]),
                &ops
            )
            .is_error());
    }

    {
        // The inner lists have a size of 3, while the main list has a max
        // size of 2.
        let pos_list_codec = limited_list(list(DoubleCodec, 3, 3), 2);

        assert!(pos_list_codec
            .decode(
                JsonValue::Arr(vec![doubles(&[0.0, 0.5, 1.0])]),
                &ops
            )
            .is_success());
        assert!(pos_list_codec
            .decode(doubles(&[0.0, 0.5, 1.0]), &ops)
            .is_error());
        assert!(pos_list_codec
            .decode(
                JsonValue::Arr(vec![
                    doubles(&[3.56, 123.4, -0.144]),
                    doubles(&[12.34, 56.78]),
                ]),
                &ops
            )
            .is_error());
        assert!(pos_list_codec
            .decode(JsonValue::Arr(vec![]), &ops)
            .is_success());
    }
}

#[test]
fn partial_list_keeps_survivors() {
    let ops = JsonOps::new();
    let codec = limited_list(IntCodec, 10);
    let decoded = codec.decode(
        JsonValue::Arr(vec![
            JsonValue::Number(Number::Int(1)),
            JsonValue::Str("oops".to_string()),
            JsonValue::Number(Number::Int(3)),
        ]),
        &ops,
    );
    assert!(decoded.is_error());
    let (survivors, failed) = decoded.clone().into_result_or_partial().unwrap();
    assert_eq!(survivors, vec![1, 3]);
    // The raw element that failed to decode sits in the failed sidecar.
    assert_eq!(
        failed,
        JsonValue::Arr(vec![JsonValue::Str("oops".to_string())])
    );
    assert!(decoded.get_message().unwrap().starts_with("Not a number"));
}

#[test]
fn failed_sidecar_collects_raw_elements() {
    let ops = JsonOps::new();
    let codec = limited_list(IntCodec, 2);
    // "oops" fails to decode and the final element exceeds the maximum of
    // two: both raw elements land in the failed sidecar.
    let decoded = codec.decode(
        JsonValue::Arr(vec![
            JsonValue::Number(Number::Int(1)),
            JsonValue::Str("oops".to_string()),
            JsonValue::Number(Number::Int(2)),
            JsonValue::Number(Number::Int(3)),
        ]),
        &ops,
    );
    assert!(decoded.is_error());
    let (survivors, failed) = decoded.into_result_or_partial().unwrap();
    assert_eq!(survivors, vec![1, 2]);
    assert_eq!(
        failed,
        JsonValue::Arr(vec![
            JsonValue::Str("oops".to_string()),
            JsonValue::Number(Number::Int(3)),
        ])
    );
}

#[test]
fn scenario_string_list_bounds() {
    let ops = JsonOps::new();
    let codec = list(StringCodec, 2, 3);
    let two = JsonValue::Arr(vec![
        JsonValue::Str("a".to_string()),
        JsonValue::Str("b".to_string()),
    ]);
    let decoded = codec.parse(two, &ops);
    assert_eq!(decoded.unwrap(), vec!["a".to_string(), "b".to_string()]);

    let one = JsonValue::Arr(vec![JsonValue::Str("a".to_string())]);
    let short = codec.parse(one, &ops);
    assert!(short.is_error());
    assert!(short.get_message().unwrap().starts_with("List is too short"));

    let four = JsonValue::Arr(vec![
        JsonValue::Str("a".to_string()),
        JsonValue::Str("b".to_string()),
        JsonValue::Str("c".to_string()),
        JsonValue::Str("d".to_string()),
    ]);
    let long = codec.parse(four, &ops);
    assert!(long.is_error());
    assert!(long.get_message().unwrap().starts_with("List is too long"));
}

#[test]
fn lazy_codec_defers_construction_to_first_use() {
    let ops = JsonOps::new();
    // Constructing the wrapper does not build the codec; the first use does,
    // and the same built codec serves both calls below.
    let codec = lazy(IntListCodecSupplier);
    let value = vec![1, 2, 3];
    let encoded = codec.encode_start(&value, &ops).unwrap();
    assert_eq!(encoded, ints(&[1, 2, 3]));
    let decoded = codec.parse(encoded, &ops).unwrap();
    assert_eq!(decoded, value);
}
