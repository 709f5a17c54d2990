use fmtex::prelude::DisplayExt;

#[test]
fn display_repeated_empty() {
    let s = "a".repeated(0).to_string();
    assert_eq!(s, "");
}

#[test]
fn display_repeated_once() {
    let s = "a".repeated(1).to_string();
    assert_eq!(s, "a");
}

#[test]
fn display_repeated_many() {
    let s = "a".repeated(5).to_string();
    assert_eq!(s, "aaaaa");
}
