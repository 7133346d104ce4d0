use easy_apply::probe::{contains_bytes, find_apply_container, find_easy_apply, ButtonProbe};

fn button(class: Option<&str>, text: &str) -> ButtonProbe {
    ButtonProbe { class: class.map(|s| s.to_owned()), text: text.to_owned() }
}

#[test]
fn picks_the_first_qualifying_button() {
    let buttons = vec![
        button(Some("btn btn-secondary"), "Easy apply"),
        button(Some("btn btn-primary large"), "Save job"),
        button(Some("seo btn btn-primary"), "Easy apply"),
        button(Some("btn btn-primary"), "Easy apply"),
    ];
    assert_eq!(find_easy_apply(&buttons), Some(2));
}

#[test]
fn exact_text_is_required() {
    let buttons = vec![
        button(Some("btn btn-primary"), "easy apply"),
        button(Some("btn btn-primary"), "Easy apply now"),
        button(None, "Easy apply"),
    ];
    assert_eq!(find_easy_apply(&buttons), None);
}

#[test]
fn container_is_the_div_with_the_apply_id() {
    let divs = vec![
        Some("header".to_owned()),
        None,
        Some("applyButton".to_owned()),
        Some("applyButton".to_owned()),
    ];
    assert_eq!(find_apply_container(&divs), Some(2));
    assert_eq!(find_apply_container(&vec![None, Some("other".to_owned())]), None);
}

#[test]
fn substring_search_is_exact() {
    assert!(contains_bytes(b"seo btn btn-primary x", b"btn btn-primary"));
    assert!(contains_bytes(b"btn btn-primary", b"btn btn-primary"));
    assert!(!contains_bytes(b"btn  btn-primary", b"btn btn-primary"));
    assert!(!contains_bytes(b"btn", b"btn btn-primary"));
    assert!(contains_bytes(b"anything", b""));
}
