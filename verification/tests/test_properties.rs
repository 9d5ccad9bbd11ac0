use any_of::{AnyOf, AnyOf16, AnyOf4, AnyOf8, BothOf, EitherOf, Left, LeftOrRight, MapOf, Right, Swap, Unwrap};

#[test]
fn test_new_round_trip_all_shapes() {
    let neither: AnyOf<i32, &str> = AnyOf::new(None, None);
    assert_eq!(neither.left(), None);
    assert_eq!(neither.right(), None);

    let left: AnyOf<i32, &str> = AnyOf::new(Some(7), None);
    assert_eq!(left.left(), Some(&7));
    assert_eq!(left.right(), None);

    let right: AnyOf<i32, &str> = AnyOf::new(None, Some("x"));
    assert_eq!(right.left(), None);
    assert_eq!(right.right(), Some(&"x"));

    let both: AnyOf<i32, &str> = AnyOf::new(Some(7), Some("x"));
    assert_eq!(both.left(), Some(&7));
    assert_eq!(both.right(), Some(&"x"));
}

#[test]
fn test_swap_twice_restores() {
    let neither: AnyOf<i32, &str> = AnyOf::new_neither();
    let left: AnyOf<i32, &str> = AnyOf::new_left(4);
    let right: AnyOf<i32, &str> = AnyOf::new_right("r");
    let both: AnyOf<i32, &str> = AnyOf::new_both(4, "r");
    assert_eq!(neither.swap().swap(), neither);
    assert_eq!(left.swap().swap(), left);
    assert_eq!(right.swap().swap(), right);
    assert_eq!(both.swap().swap(), both);

    let either: EitherOf<i32, &str> = EitherOf::new_left(9);
    assert_eq!(either.swap().swap(), either);
    let either: EitherOf<i32, &str> = EitherOf::new_right("s");
    assert_eq!(either.swap().swap(), either);

    let pair = BothOf::new(1, "p");
    assert_eq!(pair.swap().swap(), pair);
}

#[test]
fn test_map_identity_restores() {
    let left: AnyOf<i32, &str> = AnyOf::new_left(4);
    let both: AnyOf<i32, &str> = AnyOf::new_both(4, "r");
    let neither: AnyOf<i32, &str> = AnyOf::new_neither();
    assert_eq!(left.map(|l| l, |r| r), left);
    assert_eq!(both.map(|l| l, |r| r), both);
    assert_eq!(neither.map(|l| l, |r| r), neither);

    let either: EitherOf<i32, &str> = EitherOf::new_right("s");
    assert_eq!(either.map(|l| l, |r| r), either);

    let pair = BothOf::new(1, "p");
    assert_eq!(pair.map(|l| l, |r| r), pair);
}

#[test]
fn test_map_skips_absent_side() {
    let mut left_calls = 0;
    let mut right_calls = 0;
    let left: AnyOf<i32, &str> = AnyOf::new_left(4);
    let mapped = left.map(
        |l| {
            left_calls += 1;
            l * 2
        },
        |r| {
            right_calls += 1;
            r.len()
        },
    );
    assert_eq!(mapped, AnyOf::new_left(8));
    assert_eq!(left_calls, 1);
    assert_eq!(right_calls, 0);

    let mut either_left_calls = 0;
    let either: EitherOf<i32, &str> = EitherOf::new_right("abc");
    let mapped = either.map(
        |l| {
            either_left_calls += 1;
            l
        },
        |r| r.len(),
    );
    assert_eq!(mapped, EitherOf::new_right(3));
    assert_eq!(either_left_calls, 0);

    let mut neither_left_calls = 0;
    let mut neither_right_calls = 0;
    let neither: AnyOf<i32, i32> = AnyOf::new_neither();
    let mapped = neither.map(
        |l| {
            neither_left_calls += 1;
            l
        },
        |r| {
            neither_right_calls += 1;
            r
        },
    );
    assert!(mapped.is_neither());
    assert_eq!(neither_left_calls, 0);
    assert_eq!(neither_right_calls, 0);
}

#[test]
fn test_combine_neither_identity_all_shapes() {
    let neither: AnyOf<i32, &str> = AnyOf::new_neither();
    let left: AnyOf<i32, &str> = AnyOf::new_left(4);
    let right: AnyOf<i32, &str> = AnyOf::new_right("r");
    let both: AnyOf<i32, &str> = AnyOf::new_both(4, "r");

    assert_eq!(neither.combine(neither), neither);
    assert_eq!(left.combine(neither), left);
    assert_eq!(right.combine(neither), right);
    assert_eq!(both.combine(neither), both);
    assert_eq!(neither.combine(left), left);
    assert_eq!(neither.combine(right), right);
    assert_eq!(neither.combine(both), both);
}

#[test]
fn test_combine_table() {
    let left = AnyOf::new_left(42);
    let right = AnyOf::new_right("World");
    let both = AnyOf::new_both(100, "Hello");

    assert_eq!(left.combine(right), AnyOf::new_both(42, "World"));
    assert_eq!(left.combine(both), AnyOf::new_both(42, "Hello"));
    assert_eq!(both.combine(left), AnyOf::new_both(100, "Hello"));
    assert_eq!(both.combine(right), AnyOf::new_both(100, "Hello"));
    assert_eq!(both.combine(both), both);
    assert_eq!(left.combine(AnyOf::new_left(7)), left);
    assert_eq!(
        AnyOf::<i32, &str>::new_right("a").combine(AnyOf::new_right("b")),
        AnyOf::new_right("a")
    );
    assert_eq!(right.combine(left), AnyOf::new_both(42, "World"));
    assert_eq!(right.combine(both), AnyOf::new_both(100, "World"));
}

#[test]
fn test_filter_table() {
    let both = AnyOf::new_both(5, 10);
    let left_only: AnyOf<i32, i32> = AnyOf::new_left(1);
    let right_only: AnyOf<i32, i32> = AnyOf::new_right(2);
    let neither: AnyOf<i32, i32> = AnyOf::new_neither();

    assert_eq!(both.filter(left_only), AnyOf::new_right(10));
    assert_eq!(both.filter(right_only), AnyOf::new_left(5));
    assert_eq!(both.filter(neither), both);
    assert_eq!(both.filter(both), neither);

    assert_eq!(left_only.filter(left_only), neither);
    assert_eq!(right_only.filter(left_only), right_only);
    assert_eq!(left_only.filter(right_only), left_only);
    assert_eq!(right_only.filter(right_only), neither);
    assert_eq!(neither.filter(left_only), neither);
    assert_eq!(neither.filter(both), neither);
}

#[test]
fn test_filter_only_shape_matters() {
    let both = AnyOf::new_both(5, 10);
    assert_eq!(both.filter(AnyOf::new_left(-1)), both.filter(AnyOf::new_left(99)));
    assert_eq!(both.filter(AnyOf::new_both(0, 0)), AnyOf::new_neither());
}

#[test]
fn test_filter_left_right_all_shapes() {
    let neither: AnyOf<i32, &str> = AnyOf::new_neither();
    let left: AnyOf<i32, &str> = AnyOf::new_left(4);
    let right: AnyOf<i32, &str> = AnyOf::new_right("r");

    assert!(neither.filter_left().is_neither());
    assert!(neither.filter_right().is_neither());
    assert_eq!(left.filter_left(), left);
    assert!(left.filter_right().is_neither());
    assert!(right.filter_left().is_neither());
    assert_eq!(right.filter_right(), right);
}

#[test]
fn test_with_left_replaces_and_upgrades() {
    let left: AnyOf<i32, &str> = AnyOf::new_left(1);
    assert_eq!(left.with_left(2), AnyOf::new_left(2));

    let right: AnyOf<i32, &str> = AnyOf::new_right("r");
    assert_eq!(right.with_left(2), AnyOf::new_both(2, "r"));

    let both: AnyOf<i32, &str> = AnyOf::new_both(1, "r");
    assert_eq!(both.with_left(2), AnyOf::new_both(2, "r"));
    assert_eq!(both.with_right("s"), AnyOf::new_both(1, "s"));

    let right_replaced = right.with_right("s");
    assert_eq!(right_replaced, AnyOf::new_right("s"));
}

#[test]
fn test_anyof4_all_empty_collapses() {
    let value: AnyOf4<i32, i32, i32, i32> = AnyOf4::new4(None, None, None, None);
    assert!(value.is_neither());
    assert_eq!(value, AnyOf::Neither);
}

#[test]
fn test_anyof8_and_16_all_empty_collapse() {
    let value8: AnyOf8<i32, i32, i32, i32, i32, i32, i32, i32> =
        AnyOf8::new8(None, None, None, None, None, None, None, None);
    assert!(value8.is_neither());

    let value16: AnyOf16<i32, i32, i32, i32, i32, i32, i32, i32, i32, i32, i32, i32, i32, i32, i32, i32> =
        AnyOf16::new16(
            None, None, None, None, None, None, None, None, None, None, None, None, None, None,
            None, None,
        );
    assert!(value16.is_neither());
}

#[test]
fn test_anyof4_leaf_round_trip() {
    let value = AnyOf4::new4(Some(1), None::<i32>, None::<i32>, None::<i32>);
    assert_eq!(value.ll(), Some(&1));
    assert_eq!(value.lr(), None);
    assert_eq!(value.rl(), None);
    assert_eq!(value.rr(), None);

    let value = AnyOf4::new4(None::<i32>, Some(2), Some(3), None::<i32>);
    assert_eq!(value.opt4(), (None, Some(&2), Some(&3), None));
}

#[test]
fn test_anyof4_partial_half_is_present() {
    let value = AnyOf4::new4(Some(1), None::<i32>, None::<i32>, None::<i32>);
    assert!(value.is_left());
    assert!(!value.is_neither());
}

#[test]
fn test_into_both_counterpart_reports_failure() {
    let left: AnyOf<i32, &str> = AnyOf::new_left(1);
    assert_eq!(left.both_or_none(), None);
    let neither: AnyOf<i32, &str> = AnyOf::new_neither();
    assert_eq!(neither.both_or_none(), None);
    let right: AnyOf<i32, &str> = AnyOf::new_right("r");
    assert_eq!(right.both_or_none(), None);
}

#[test]
fn test_either_from_opt2_requires_exactly_one() {
    assert_eq!(EitherOf::<i32, i32>::from_opt2((Some(1), Some(2))), None);
    assert_eq!(EitherOf::<i32, i32>::from_opt2((None, None)), None);
    assert_eq!(EitherOf::<i32, i32>::from_opt2((Some(1), None)), Some(Left(1)));
    assert_eq!(EitherOf::<i32, i32>::from_opt2((None, Some(2))), Some(Right(2)));
}

#[test]
fn test_both_from_opt2_requires_both() {
    assert_eq!(BothOf::<i32, i32>::from_opt2((Some(1), None)), None);
    assert_eq!(BothOf::<i32, i32>::from_opt2((None, Some(2))), None);
    assert_eq!(BothOf::<i32, i32>::from_opt2((None, None)), None);
    assert_eq!(
        BothOf::from_opt2((Some(1), Some(2))),
        Some(BothOf::new(1, 2))
    );
}

#[test]
fn test_to_opt2_round_trips() {
    let both: AnyOf<i32, &str> = AnyOf::new_both(3, "v");
    assert_eq!(both.to_opt2(), (Some(3), Some("v")));
    let left: AnyOf<i32, &str> = AnyOf::new_left(3);
    assert_eq!(left.to_opt2(), (Some(3), None));
    assert_eq!(AnyOf::from_opt2(left.to_opt2()), left);

    let either: EitherOf<i32, &str> = EitherOf::new_right("w");
    assert_eq!(either.to_opt2(), (None, Some("w")));

    let pair = BothOf::new(8, 9);
    assert_eq!(pair.to_opt2(), (Some(8), Some(9)));
}

#[test]
fn test_from_any_matches_new() {
    let from_any: AnyOf<i32, &str> = AnyOf::from_any((Some(5), None));
    assert_eq!(from_any, AnyOf::new(Some(5), None));
    assert!(AnyOf::<i32, &str>::from_any((None, None)).is_neither());
}

#[test]
fn test_is_any() {
    let neither: AnyOf<i32, &str> = AnyOf::new_neither();
    assert!(!neither.is_any());
    assert!(AnyOf::<i32, &str>::new_left(1).is_any());
    assert!(AnyOf::<i32, &str>::new_right("x").is_any());
    assert!(AnyOf::<i32, &str>::new_both(1, "x").is_any());
}

#[test]
fn test_any_of_unwrap_fallbacks() {
    let right: AnyOf<i32, &str> = AnyOf::new_right("r");
    assert_eq!(right.left_or(5), 5);
    assert_eq!(right.right_or("other"), "r");
    let left: AnyOf<i32, &str> = AnyOf::new_left(3);
    assert_eq!(left.left_or_default(), 3);
    assert_eq!(left.right_or_default(), "");
    let neither: AnyOf<i32, &str> = AnyOf::new_neither();
    assert_eq!(neither.left_or_default(), 0);
    assert_eq!(neither.left_or_else(|| 11), 11);
    let both: AnyOf<i32, &str> = AnyOf::new_both(1, "b");
    assert_eq!(both.expect_left("left present"), 1);
    assert_eq!(both.expect_right("right present"), "b");
}

#[test]
fn test_both_or_partial_shapes() {
    let right: AnyOf<i32, &str> = AnyOf::new_right("kept");
    assert_eq!(
        right.both_or(BothOf::new(7, "dropped")),
        BothOf::new(7, "kept")
    );
    let neither: AnyOf<i32, &str> = AnyOf::new_neither();
    assert_eq!(
        neither.both_or(BothOf::new(7, "dropped")),
        BothOf::new(7, "dropped")
    );
}

#[test]
fn test_unwrap_both_on_both() {
    let both: AnyOf<i32, &str> = AnyOf::new_both(6, "ok");
    assert_eq!(not_consuming_helper(both), BothOf::new(6, "ok"));
}

fn not_consuming_helper(v: AnyOf<i32, &'static str>) -> BothOf<i32, &'static str> {
    v.unwrap_both()
}

#[test]
fn test_from_conversions() {
    let either: EitherOf<i32, String> = Left(42);
    let any_of: AnyOf<i32, String> = AnyOf::from(either);
    assert!(any_of.is_left());

    let both: BothOf<i32, String> = BothOf {
        left: 42,
        right: "hello".to_string(),
    };
    let any_of: AnyOf<i32, String> = AnyOf::from(both);
    assert!(any_of.is_both());

    let pair: BothOf<i32, &str> = (7, "x").into();
    assert_eq!(pair, BothOf::new(7, "x"));

    let any: AnyOf<i32, &str> = (7, "x").into();
    assert_eq!(any, AnyOf::new_both(7, "x"));

    let from_options: AnyOf<i32, &str> = (Some(7), None::<&str>).into();
    assert_eq!(from_options, AnyOf::new_left(7));
}

#[test]
fn test_not_operator_swaps() {
    let either: EitherOf<i32, &str> = EitherOf::new_left(5);
    let not_either: EitherOf<&str, i32> = !either;
    assert_eq!(not_either, EitherOf::new_right(5));

    let any: AnyOf<i32, &str> = AnyOf::new_both(5, "s");
    let not_any: AnyOf<&str, i32> = !any;
    assert_eq!(not_any, AnyOf::new_both("s", 5));
}

#[test]
fn test_to_either_pair_single_sides() {
    let left: AnyOf<i32, &str> = AnyOf::new_left(1);
    assert_eq!(left.to_either_pair(), (Some(Left(1)), None));
    let right: AnyOf<i32, &str> = AnyOf::new_right("z");
    assert_eq!(right.to_either_pair(), (None, Some(Right("z"))));
    let neither: AnyOf<i32, &str> = AnyOf::new_neither();
    assert_eq!(neither.to_either_pair(), (None, None));
}

#[test]
fn test_any_returns_both_references() {
    let both: AnyOf<i32, &str> = AnyOf::new_both(2, "y");
    assert_eq!(both.any(), (Some(&2), Some(&"y")));
    assert_eq!(both.opt2(), (Some(&2), Some(&"y")));
    let left: AnyOf<i32, &str> = AnyOf::new_left(2);
    assert_eq!(left.any(), (Some(&2), None));
}
