use fmtex::prelude::{IntoIteratorByRefExt, IntoIteratorExt};

#[test]
fn iter_joined_array() {
    let s = [1, 2, 3].joined(", ").to_string();
    assert_eq!(s, "1, 2, 3");
}

#[test]
fn iter_joined_slice() {
    let s = [1, 2, 3][..].joined(", ").to_string();
    assert_eq!(s, "1, 2, 3");
}

#[test]
fn iter_joined_vec() {
    let s = vec![1, 2, 3].joined(", ").to_string();
    assert_eq!(s, "1, 2, 3");
}

#[test]
fn iter_consume_range() {
    let range = &mut (1..4).consumed();
    assert_eq!(range.len(), 3);

    let s = range.joined(", ").to_string();
    assert_eq!(s, "1, 2, 3");

    // the second rendering finds the range drained
    assert_eq!(range.len(), 0);

    let s = range.joined(", ").to_string();
    assert!(s.is_empty());
}

#[test]
fn iter_always_fused() {
    let mut non_fused_iter = {
        let items = [None, Some(1), Some(2), None, Some(3)];
        let mut count = 0;
        std::iter::from_fn(move || {
            let item = items[count];
            count += 1;
            item
        })
    };

    // the source itself is not fused
    assert_eq!(non_fused_iter.next(), None);
    assert_eq!(non_fused_iter.next(), Some(1));

    // wrapped, it is
    let consumed = &mut non_fused_iter.consumed();
    assert_eq!(consumed.next(), Some(2));
    assert_eq!(consumed.next(), None);
    assert_eq!(consumed.next(), None);
}
