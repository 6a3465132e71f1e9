use datafixerupper::codec::{double_range, float_range, int_range};
use datafixerupper::coders::{Decoder, Encoder};
use datafixerupper::json::JsonValue;
use datafixerupper::json_ops::JsonOps;
use datafixerupper::number::{DoubleBits, FloatBits, Number};

fn double(v: f64) -> JsonValue {
    JsonValue::Number(Number::Double(v.to_bits()))
}

fn float(v: f32) -> JsonValue {
    JsonValue::Number(Number::Float(v.to_bits()))
}

#[test]
fn range_encoding() {
    let ops = JsonOps::new();

    {
        // A codec that does not allow negative numbers.
        let non_negative = int_range(0, i32::MAX);

        assert_eq!(
            non_negative.encode_start(&3, &ops).unwrap(),
            JsonValue::Number(Number::Int(3))
        );
        assert_eq!(
            non_negative.encode_start(&6745, &ops).unwrap(),
            JsonValue::Number(Number::Int(6745))
        );
        assert_eq!(
            non_negative.encode_start(&0, &ops).unwrap(),
            JsonValue::Number(Number::Int(0))
        );
        assert!(non_negative.encode_start(&-93, &ops).is_error());
    }

    {
        // A codec accepting a double value from 0 to 100.
        let percentage = double_range(
            DoubleBits((0.0f64).to_bits()),
            DoubleBits((100.0f64).to_bits()),
        );

        assert!(percentage
            .encode_start(&DoubleBits((16.0f64).to_bits()), &ops)
            .is_success());
        assert!(percentage
            .encode_start(&DoubleBits((45.5f64).to_bits()), &ops)
            .is_success());
        assert!(percentage
            .encode_start(&DoubleBits((99.999f64).to_bits()), &ops)
            .is_success());
        assert!(percentage
            .encode_start(&DoubleBits((134.4f64).to_bits()), &ops)
            .is_error());
        assert!(percentage
            .encode_start(&DoubleBits((-0.5f64).to_bits()), &ops)
            .is_error());
        assert!(percentage
            .encode_start(&DoubleBits(f64::NAN.to_bits()), &ops)
            .is_error());
    }
}

#[test]
fn range_decoding() {
    let ops = JsonOps::new();

    assert!(int_range(1, 5)
        .decode(JsonValue::Number(Number::Int(3)), &ops)
        .is_success());
    assert!(int_range(-5, 5)
        .decode(JsonValue::Number(Number::Int(6)), &ops)
        .is_error());

    let wide = double_range(
        DoubleBits((-100.0f64).to_bits()),
        DoubleBits((100.0f64).to_bits()),
    );
    assert!(wide.decode(double(45.5), &ops).is_success());
    assert!(wide.decode(double(-100.0), &ops).is_success());

    let above_one = double_range(
        DoubleBits((1.0f64).to_bits()),
        DoubleBits(f64::MAX.to_bits()),
    );
    assert!(above_one.decode(double(88.44), &ops).is_success());
    assert!(above_one.decode(double(0.999), &ops).is_error());

    let narrow = float_range(
        FloatBits((0.04f32).to_bits()),
        FloatBits((0.08f32).to_bits()),
    );
    assert!(narrow.decode(float(0.05), &ops).is_success());

    let narrower = float_range(
        FloatBits((0.006f32).to_bits()),
        FloatBits((0.012f32).to_bits()),
    );
    assert!(narrower.decode(float(0.013), &ops).is_error());
}
