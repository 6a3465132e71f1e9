use datafixerupper::nbt_ops::{ListCollector, NbtOps, NbtTag};

#[test]
fn list_collecting() {
    // Int list collector
    let mut collector = ListCollector::new_initial_collector();

    collector = collector.accept(NbtTag::Int(10));
    collector = collector.accept(NbtTag::Int(15));
    collector = collector.accept(NbtTag::Int(20));

    assert_eq!(collector.result(), NbtTag::IntArray(vec![10, 15, 20]));

    // Byte list collector
    let mut collector = ListCollector::new_initial_collector();

    collector = collector.accept(NbtTag::Byte(-1));
    collector = collector.accept(NbtTag::Byte(5));
    collector = collector.accept(NbtTag::Byte(10));

    assert_eq!(
        collector.result(),
        NbtTag::ByteArray(vec![-1i8 as u8, 5i8 as u8, 10i8 as u8])
    );

    // Long list collector
    let mut collector = ListCollector::new_initial_collector();

    collector = collector.accept(NbtTag::Long(11_234_567_890));
    collector = collector.accept(NbtTag::Long(-986));
    collector = collector.accept(NbtTag::Long(1));
    collector = collector.accept(NbtTag::Long(-937_238_122));

    assert_eq!(
        collector.result(),
        NbtTag::LongArray(vec![11_234_567_890, -986, 1, -937_238_122])
    );

    // Homogeneous list collector
    let mut collector = ListCollector::new_initial_collector();

    collector = collector.accept(NbtTag::Float((-123.4f32).to_bits()));
    collector = collector.accept(NbtTag::Float((12.5f32).to_bits()));

    assert_eq!(
        collector.result(),
        NbtTag::List(vec![
            NbtTag::Float((-123.4f32).to_bits()),
            NbtTag::Float((12.5f32).to_bits()),
        ])
    );

    // Heterogeneous list collector
    let mut collector = ListCollector::new_initial_collector();

    collector = collector.accept(NbtTag::Byte(99));

    // The list collector should change its type after accepting this string.
    collector = collector.accept(NbtTag::Str("99".to_string()));
    collector = collector.accept(NbtTag::LongArray(vec![1, 2, 3]));

    let result = collector.result();

    if let NbtTag::List(list) = result {
        for tag in list {
            // We expect each element to be wrapped in a compound tag with
            // only 1 key, an empty string with our value.
            let compound = tag.extract_compound().expect("Expected NBT compound");

            assert_eq!(compound.len(), 1);

            assert_eq!(compound[0].0, "");
        }
    } else {
        panic!("Expected an NBT list, got {result:?}");
    }
}

#[test]
fn merging_into_lists() {
    let ops = NbtOps;

    let merged = ops.merge_into_list(NbtTag::End, NbtTag::Int(7));
    assert!(merged.is_success());
    assert_eq!(merged.unwrap(), NbtTag::IntArray(vec![7]));

    let extended = ops.merge_values_into_list(
        NbtTag::IntArray(vec![1, 2]),
        vec![NbtTag::Int(3), NbtTag::Int(4)],
    );
    assert_eq!(extended.unwrap(), NbtTag::IntArray(vec![1, 2, 3, 4]));

    let not_a_list = ops.merge_into_list(NbtTag::Byte(1), NbtTag::Int(7));
    assert!(not_a_list.is_error());
    assert_eq!(
        not_a_list.get_message().unwrap(),
        "Not a list".to_string()
    );
}

#[test]
fn nbt_primitive_reads() {
    let ops = NbtOps;
    assert!(ops.get_number(&NbtTag::Int(45)).is_success());
    assert!(ops.get_number(&NbtTag::Str("x".to_string())).is_error());
    assert!(ops.get_string(&NbtTag::Str("Sample Text".to_string())).is_success());
    assert!(ops.get_string(&NbtTag::Int(3)).is_error());
    assert_eq!(ops.create_bool(true), NbtTag::Byte(1));
    assert_eq!(ops.empty(), NbtTag::End);
}
