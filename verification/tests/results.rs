use datafixerupper::data_result::DataResult;
use datafixerupper::either::Either;
use datafixerupper::lifecycle::Lifecycle;
use datafixerupper::rarity::{NamedColor, Rarity};

#[test]
fn applicative_combines_messages_in_order() {
    let first: DataResult<i32> = DataResult::error_partial("first bad".to_string(), 1);
    let second: DataResult<i32> = DataResult::error_partial("second bad".to_string(), 2);
    let combined = first.apply_2(|a, b| a + b, second);
    assert!(combined.is_error());
    assert_eq!(combined.get_message().unwrap(), "first bad; second bad");
    assert_eq!(combined.into_result_or_partial(), Some(3));

    let ok_a: DataResult<i32> = DataResult::success(4);
    let ok_b: DataResult<i32> = DataResult::success(5);
    let sum = ok_a.apply_2(|a, b| a + b, ok_b);
    assert!(sum.is_success());
    assert_eq!(sum.unwrap(), 9);

    let ok: DataResult<i32> = DataResult::success(4);
    let valueless: DataResult<i32> = DataResult::error("gone".to_string());
    let lost = ok.apply_2(|a, b| a + b, valueless);
    assert!(lost.is_error());
    assert_eq!(lost.into_result_or_partial(), None);
}

#[test]
fn three_results_combine() {
    let a: DataResult<i32> = DataResult::success(1);
    let b: DataResult<i32> = DataResult::error_partial("b bad".to_string(), 2);
    let c: DataResult<i32> = DataResult::error_partial("c bad".to_string(), 3);
    let combined = a.apply_3(|x, y, z| x + y + z, b, c);
    assert!(combined.is_error());
    assert_eq!(combined.get_message().unwrap(), "b bad; c bad");
    assert_eq!(combined.into_result_or_partial(), Some(6));
}

#[test]
fn flat_map_concatenates_partial_messages() {
    let partial: DataResult<i32> = DataResult::error_partial("outer".to_string(), 10);
    let chained = partial.flat_map(|v| {
        if v > 5 {
            DataResult::error_partial("inner".to_string(), v + 1)
        } else {
            DataResult::success(v)
        }
    });
    assert!(chained.is_error());
    assert_eq!(chained.get_message().unwrap(), "outer; inner");
    assert_eq!(chained.into_result_or_partial(), Some(11));
}

#[test]
fn promote_partial_recovers_value() {
    let partial: DataResult<i32> = DataResult::error_partial("almost".to_string(), 7);
    let mut seen = String::new();
    let promoted = partial.promote_partial(|m| {
        seen = m;
    });
    assert!(promoted.is_success());
    assert_eq!(promoted.unwrap(), 7);
    assert_eq!(seen, "almost");
}

#[test]
fn either_values() {
    let left: Either<i32, String> = Either::Left(3);
    assert_eq!(left.clone().into_left(), Some(3));
    assert_eq!(left.clone().into_right(), None);
    assert_eq!(left.clone().map(|l| l + 1, |_r| 0), 4);
    let swapped = left.map_both(|l| l * 2, |r: String| r);
    assert_eq!(swapped, Either::Left(6));
}

#[test]
fn rarities() {
    assert_eq!(Rarity::Common.to_str(), "common");
    assert_eq!(Rarity::Epic.color(), NamedColor::LightPurple);
    assert_eq!(Rarity::from_name("rare"), Ok(Rarity::Rare));
    assert!(Rarity::from_name("mythic").is_err());
    assert_eq!(Rarity::from_index(1), Ok(Rarity::Uncommon));
}
