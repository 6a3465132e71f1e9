use datafixerupper::codec::validate;
use datafixerupper::codecs::primitive::{IntCodec, StringCodec};
use datafixerupper::coders::{Decoder, Encoder};
use datafixerupper::json::JsonValue;
use datafixerupper::json_ops::JsonOps;
use datafixerupper::number::Number;
use datafixerupper::validators::{EvenIntValidator, PlayerNameValidator};

#[test]
fn even_int_validation() {
    let ops = JsonOps::new();
    // An int codec that only accepts even numbers.
    let even_int_codec = validate(IntCodec, EvenIntValidator);

    assert_eq!(
        even_int_codec.encode_start(&2, &ops).unwrap(),
        JsonValue::Number(Number::Int(2))
    );
    assert_eq!(
        even_int_codec.encode_start(&-56, &ops).unwrap(),
        JsonValue::Number(Number::Int(-56))
    );
    let odd = even_int_codec.encode_start(&-135, &ops);
    assert!(odd.is_error());
    assert_eq!(odd.get_message().unwrap(), "Not an even number");

    assert!(even_int_codec
        .decode(JsonValue::Number(Number::Int(0)), &ops)
        .is_success());
    assert!(even_int_codec
        .decode(JsonValue::Number(Number::Int(3456)), &ops)
        .is_success());
    assert!(even_int_codec
        .decode(JsonValue::Number(Number::Int(-12345)), &ops)
        .is_error());
    assert!(even_int_codec
        .decode(JsonValue::Number(Number::Int(153453)), &ops)
        .is_error());
}

#[test]
fn player_name_validation() {
    let ops = JsonOps::new();
    // A codec of a player name: between 3 and 16 characters, all of them
    // letters, digits or underscores.
    let player_name_codec = validate(StringCodec, PlayerNameValidator);

    assert!(player_name_codec
        .encode_start(&String::from("Player"), &ops)
        .is_success());
    assert!(player_name_codec
        .encode_start(&String::from("abcd1234"), &ops)
        .is_success());
    let spaces = player_name_codec.encode_start(&String::from("has some spaces"), &ops);
    assert!(spaces.is_error());
    assert_eq!(
        spaces.get_message().unwrap(),
        "Player name must only contain alphanumeric characters and underscores"
    );
    let long = player_name_codec.encode_start(&String::from("XxXxVeryLongNameXxXx"), &ops);
    assert!(long.is_error());
    assert_eq!(
        long.get_message().unwrap(),
        "Player name must be between 3-16 characters long (inclusive)"
    );
    assert!(player_name_codec
        .encode_start(&String::from("ILovePizza$"), &ops)
        .is_error());

    assert!(player_name_codec
        .decode(JsonValue::Str("Pumpkin".to_string()), &ops)
        .is_success());
    assert!(player_name_codec
        .decode(JsonValue::Str("IGoByNoNames__".to_string()), &ops)
        .is_success());
    assert!(player_name_codec
        .decode(JsonValue::Str("#idk".to_string()), &ops)
        .is_error());
}
