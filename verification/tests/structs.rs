use datafixerupper::coders::{Decoder, Encoder};
use datafixerupper::json::JsonValue;
use datafixerupper::json_ops::JsonOps;
use datafixerupper::number::Number;
use datafixerupper::samples::{book_codec, item_stack_codec, recipe_codec, Book, ItemStack, Recipe};

fn int_value(v: i32) -> JsonValue {
    JsonValue::Number(Number::Int(v))
}

fn string(s: &str) -> JsonValue {
    JsonValue::Str(s.to_string())
}

#[test]
fn book_struct() {
    let ops = JsonOps::new();
    let codec = book_codec();

    let object = Book {
        name: "Sample Book".to_string(),
        author: "Sample Author".to_string(),
        pages: 16,
    };

    assert_eq!(
        codec
            .encode_start(&object, &ops)
            .expect("Could not encode book"),
        JsonValue::Obj(vec![
            ("name".to_string(), string("Sample Book")),
            ("author".to_string(), string("Sample Author")),
            ("pages".to_string(), int_value(16)),
        ])
    );

    assert_eq!(
        codec
            .parse(
                JsonValue::Obj(vec![
                    ("name".to_string(), string("The Great Gatsby")),
                    ("author".to_string(), string("F. Scott Fitzgerald")),
                    ("pages".to_string(), int_value(180)),
                ]),
                &ops
            )
            .expect("Parsing book object failed"),
        Book {
            name: "The Great Gatsby".to_string(),
            author: "F. Scott Fitzgerald".to_string(),
            pages: 180
        }
    );

    let missing_author = codec.decode(
        JsonValue::Obj(vec![
            ("name".to_string(), string("Untitled Book")),
            ("pages".to_string(), int_value(345)),
        ]),
        &ops,
    );
    assert!(missing_author.is_error());
    assert!(missing_author.get_message().unwrap().contains("No key author in map"));

    assert!(codec
        .decode(
            JsonValue::Obj(vec![
                ("name".to_string(), string("Untitled Book 2")),
                ("author".to_string(), string("Untitled Author")),
                ("pages".to_string(), string("98")),
            ]),
            &ops
        )
        .is_error());
}

#[test]
fn recipe_struct() {
    let ops = JsonOps::new();
    let codec = recipe_codec();

    // Encoding

    let example = Recipe {
        id: String::from("flint_and_steel_recipe"),
        ingredients: vec![
            ItemStack {
                item: String::from("flint"),
                count: 1,
            },
            ItemStack {
                item: String::from("iron_ingot"),
                count: 1,
            },
        ],
        result: ItemStack {
            item: String::from("flint_and_steel"),
            count: 1,
        },
        crafting_time: 2,
        experience: 5,
    };

    assert_eq!(
        codec.encode_start(&example, &ops).expect("Encoding panicked"),
        JsonValue::Obj(vec![
            ("id".to_string(), string("flint_and_steel_recipe")),
            (
                "ingredients".to_string(),
                JsonValue::Arr(vec![
                    // Since the counts are 1, the count key is omitted.
                    JsonValue::Obj(vec![("item".to_string(), string("flint"))]),
                    JsonValue::Obj(vec![("item".to_string(), string("iron_ingot"))]),
                ])
            ),
            (
                "result".to_string(),
                JsonValue::Obj(vec![("item".to_string(), string("flint_and_steel"))])
            ),
            ("crafting_time".to_string(), int_value(2)),
            ("experience".to_string(), int_value(5)),
        ])
    );

    let empty = Recipe {
        id: String::from("combine_air"),
        ingredients: vec![],
        result: ItemStack {
            item: String::from("bigger_air"),
            count: 1,
        },
        crafting_time: 1,
        experience: 1,
    };

    // This should error because there are no ingredients in the recipe.
    assert!(codec
        .encode_start(&empty, &ops)
        .get_message()
        .expect("This DataResult should be an error")
        .contains("List is too short"));

    // Decoding

    assert_eq!(
        codec
            .parse(
                JsonValue::Obj(vec![
                    ("id".to_string(), string("orange_dye_recipe")),
                    (
                        "ingredients".to_string(),
                        JsonValue::Arr(vec![
                            // The codec substitutes the default count value
                            // for these items, which is 1.
                            JsonValue::Obj(vec![("item".to_string(), string("red_dye"))]),
                            JsonValue::Obj(vec![("item".to_string(), string("yellow_dye"))]),
                        ])
                    ),
                    (
                        "result".to_string(),
                        JsonValue::Obj(vec![
                            ("item".to_string(), string("orange_dye")),
                            ("count".to_string(), int_value(2)),
                        ])
                    ),
                    ("crafting_time".to_string(), int_value(10)),
                    ("experience".to_string(), int_value(10)),
                ]),
                &ops
            )
            .expect("Decoding panicked"),
        Recipe {
            id: String::from("orange_dye_recipe"),
            ingredients: vec![
                ItemStack {
                    item: String::from("red_dye"),
                    count: 1
                },
                ItemStack {
                    item: String::from("yellow_dye"),
                    count: 1
                },
            ],
            result: ItemStack {
                item: String::from("orange_dye"),
                count: 2
            },
            crafting_time: 10,
            experience: 10,
        }
    );

    assert!(codec
        .parse(
            JsonValue::Obj(vec![
                ("id".to_string(), string("bedrock_recipe")),
                (
                    "ingredients".to_string(),
                    JsonValue::Arr(vec![
                        JsonValue::Obj(vec![
                            ("item".to_string(), string("obsidian")),
                            ("count".to_string(), int_value(64)),
                        ]),
                        JsonValue::Obj(vec![
                            ("item".to_string(), string("netherite_block")),
                            ("count".to_string(), int_value(64)),
                        ]),
                    ])
                ),
                (
                    "result".to_string(),
                    JsonValue::Obj(vec![("item".to_string(), string("bedrock"))])
                ),
                ("crafting_time".to_string(), int_value(10000)),
                // The "experience" key is omitted.
            ]),
            &ops
        )
        .is_error());
}

#[test]
fn item_stack_default_count() {
    let ops = JsonOps::new();
    let codec = item_stack_codec();

    // Encoding the default count omits the key.
    assert_eq!(
        codec
            .encode_start(
                &ItemStack {
                    item: "flint".to_string(),
                    count: 1
                },
                &ops
            )
            .unwrap(),
        JsonValue::Obj(vec![("item".to_string(), string("flint"))])
    );

    // Decoding a map without the key yields the default.
    assert_eq!(
        codec
            .parse(
                JsonValue::Obj(vec![("item".to_string(), string("flint"))]),
                &ops
            )
            .unwrap(),
        ItemStack {
            item: "flint".to_string(),
            count: 1
        }
    );
}
