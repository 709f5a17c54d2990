use fmtex::prelude::IntoIteratorByRefExt;

#[test]
fn joined_joined_array() {
    let s = [1, 2, 3].joined(", ").to_string();
    assert_eq!(s, "1, 2, 3");
}

#[test]
fn joined_joined_slice() {
    let s = [1, 2, 3][..].joined(", ").to_string();
    assert_eq!(s, "1, 2, 3");
}

#[test]
fn joined_joined_vec() {
    let s = vec![1, 2, 3].joined(", ").to_string();
    assert_eq!(s, "1, 2, 3");
}
