use std::cell::Cell;

use higher_kinded_types::any::{coerce, same_shape, AnyBox, Remove, Shape, Static};

fn report<'lt>(any: &AnyBox<'lt>) -> [bool; 4] {
    [
        any.is::<i32>(),
        any.is::<String>(),
        any.is::<&'lt i32>(),
        any.is::<Cell<&'lt i32>>(),
    ]
}

#[test]
fn negative_identity_matrix() {
    let local: i32 = 42;
    let rows = [
        report(&coerce(7_i32)),
        report(&coerce(String::from("42"))),
        report(&coerce(&local)),
        report(&coerce(Cell::new(&local))),
    ];
    let mut trues = 0;
    let mut falses = 0;
    for (i, row) in rows.iter().enumerate() {
        for (j, &hit) in row.iter().enumerate() {
            assert_eq!(hit, i == j, "row {} column {}", i, j);
            if hit {
                trues += 1;
            } else {
                falses += 1;
            }
        }
    }
    assert_eq!(trues, 4);
    assert_eq!(falses, 12);
}

#[test]
fn heterogeneous_boxes_keep_their_types() {
    let local = String::from("local");
    let a: i32 = 42;
    let b: &str = &local;
    let c: &'static str = "static";
    let anys: [AnyBox<'_>; 3] = [coerce(a), coerce(b), coerce(Static(c))];

    assert!(anys[0].is::<i32>());
    assert!(!anys[0].is::<&str>());
    assert!(!anys[0].is::<Static<&'static str>>());

    assert!(anys[1].is::<&str>());
    assert!(!anys[1].is::<i32>());
    assert!(!anys[1].is::<Static<&'static str>>());

    assert!(anys[2].is::<Static<&'static str>>());
    assert!(!anys[2].is::<&str>());
    assert!(!anys[2].is::<i32>());
}

#[test]
fn static_tag_is_distinct_from_a_local_borrow() {
    let local: i32 = 42;
    let borrowed = coerce(&local);
    let static_r: &'static i32 = &42;
    let tagged = coerce(Static(static_r));

    assert!(borrowed.is::<&i32>());
    assert!(!borrowed.is::<Static<&'static i32>>());
    assert!(tagged.is::<Static<&'static i32>>());
    assert!(!tagged.is::<&i32>());
}

#[test]
fn nested_references_match_only_their_own_depth() {
    let local: i32 = 42;
    let r: &i32 = &local;
    let nested: &&i32 = &r;
    let any = coerce(nested);
    assert!(any.is::<&&i32>());
    assert!(!any.is::<&i32>());
    assert!(!any.is::<i32>());
    assert!(!any.is::<Cell<&&i32>>());
}

#[test]
fn dyn_view_answers_like_the_box() {
    let local: i32 = 5;
    let any = coerce(Cell::new(&local));
    assert!(any.as_dyn().is::<Cell<&i32>>());
    assert!(!any.as_dyn().is::<&i32>());
    let boxed = any.into_dyn();
    assert!(boxed.is::<Cell<&i32>>());
    assert!(!boxed.is::<i32>());
}

#[test]
fn static_shapes_are_structural() {
    assert!(<&i32 as Remove>::static_shape() == Shape::Ref(Box::new(Shape::I32)));
    assert!(<&str as Remove>::static_shape() == Shape::Ref(Box::new(Shape::Str)));
    assert!(
        <Cell<&&String> as Remove>::static_shape()
            == Shape::CellRef(Box::new(Shape::Ref(Box::new(Shape::Text))))
    );
    assert!(
        <Static<&'static i32> as Remove>::static_shape()
            == Shape::Tagged(Box::new(Shape::Ref(Box::new(Shape::I32))))
    );
    assert!(<i32 as Remove>::static_shape() != Shape::Text);
}

#[test]
fn same_shape_compares_every_level() {
    let deep = Shape::Ref(Box::new(Shape::CellRef(Box::new(Shape::I32))));
    let deep_again = Shape::Ref(Box::new(Shape::CellRef(Box::new(Shape::I32))));
    let other = Shape::Ref(Box::new(Shape::CellRef(Box::new(Shape::Text))));
    assert!(same_shape(&deep, &deep_again));
    assert!(!same_shape(&deep, &other));
    assert!(!same_shape(&Shape::Str, &Shape::Text));
    assert!(!same_shape(&Shape::Ref(Box::new(Shape::I32)), &Shape::Tagged(Box::new(Shape::I32))));
}
