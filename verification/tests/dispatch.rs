use datafixerupper::coders::{Decoder, Encoder};
use datafixerupper::json::JsonValue;
use datafixerupper::json_ops::JsonOps;
use datafixerupper::number::{DoubleBits, Number};
use datafixerupper::samples::{shape_codec, Shape};

fn double(v: f64) -> JsonValue {
    JsonValue::Number(Number::Double(v.to_bits()))
}

fn string(s: &str) -> JsonValue {
    JsonValue::Str(s.to_string())
}

#[test]
fn key_dispatch_encoding() {
    let ops = JsonOps::new();
    let codec = shape_codec();

    // Encoding a circle
    assert_eq!(
        codec
            .encode_start(
                &Shape::Circle {
                    radius: DoubleBits((50.0f64).to_bits())
                },
                &ops
            )
            .expect("Encoding should succeed"),
        JsonValue::Obj(vec![
            ("radius".to_string(), double(50.0)),
            ("type".to_string(), string("circle")),
        ])
    );

    // Encoding a rectangle
    assert_eq!(
        codec
            .encode_start(
                &Shape::Rectangle {
                    width: DoubleBits((8.0f64).to_bits()),
                    height: DoubleBits((12.5f64).to_bits()),
                },
                &ops
            )
            .expect("Encoding should succeed"),
        JsonValue::Obj(vec![
            ("width".to_string(), double(8.0)),
            ("height".to_string(), double(12.5)),
            ("type".to_string(), string("rectangle")),
        ])
    );

    // Encoding a triangle
    assert_eq!(
        codec
            .encode_start(
                &Shape::Triangle {
                    sides: vec![
                        DoubleBits((2.0f64).to_bits()),
                        DoubleBits((3.0f64).to_bits()),
                        DoubleBits((4.0f64).to_bits()),
                    ],
                },
                &ops
            )
            .expect("Encoding should succeed"),
        JsonValue::Obj(vec![
            (
                "sides".to_string(),
                JsonValue::Arr(vec![double(2.0), double(3.0), double(4.0)])
            ),
            ("type".to_string(), string("triangle")),
        ])
    );
}

#[test]
fn key_dispatch_decoding() {
    let ops = JsonOps::new();
    let codec = shape_codec();

    assert_eq!(
        codec
            .parse(
                JsonValue::Obj(vec![
                    ("type".to_string(), string("circle")),
                    ("radius".to_string(), double(10.0)),
                ]),
                &ops
            )
            .expect("Decoding should succeed"),
        Shape::Circle {
            radius: DoubleBits((10.0f64).to_bits())
        }
    );

    assert_eq!(
        codec
            .parse(
                JsonValue::Obj(vec![
                    ("type".to_string(), string("rectangle")),
                    ("width".to_string(), double(12.3)),
                    ("height".to_string(), double(45.6)),
                ]),
                &ops
            )
            .expect("Decoding should succeed"),
        Shape::Rectangle {
            width: DoubleBits((12.3f64).to_bits()),
            height: DoubleBits((45.6f64).to_bits()),
        }
    );

    assert_eq!(
        codec
            .parse(
                JsonValue::Obj(vec![
                    ("type".to_string(), string("triangle")),
                    (
                        "sides".to_string(),
                        JsonValue::Arr(vec![double(12.0), double(15.0), double(18.0)])
                    ),
                ]),
                &ops
            )
            .expect("Decoding should succeed"),
        Shape::Triangle {
            sides: vec![
                DoubleBits((12.0f64).to_bits()),
                DoubleBits((15.0f64).to_bits()),
                DoubleBits((18.0f64).to_bits()),
            ],
        }
    );

    let unknown = codec.parse(
        JsonValue::Obj(vec![
            // There is no square shape.
            ("type".to_string(), string("square")),
            ("side".to_string(), double(4.0)),
        ]),
        &ops,
    );
    assert!(unknown
        .get_message()
        .expect("Decoding should fail")
        .starts_with("Invalid differentiator value"));
}
