use easy_apply::extract::{extract, Anchor};
use easy_apply::ident::uuid_shaped;

const ID: &str = "f0767d15-68a2-4c23-95c6-5685dedf2d2d";

fn anchor(id: Option<&str>, text: &str) -> Anchor {
    Anchor { id: id.map(|s| s.to_owned()), text: text.to_owned() }
}

#[test]
fn duplicate_identifiers_collapse_to_first_seen_title() {
    let anchors = vec![anchor(Some(ID), "First title"), anchor(Some(ID), "Second title")];
    let postings = extract(&anchors, 1);
    assert_eq!(postings.len(), 1);
    assert_eq!(postings[0].identifier, ID);
    assert_eq!(postings[0].title, "First title");
}

#[test]
fn shape_filter_excludes_and_includes() {
    let anchors = vec![anchor(Some("not-a-uuid"), "Bad"), anchor(Some(ID), "Good")];
    let postings = extract(&anchors, 1);
    assert_eq!(postings.len(), 1);
    assert_eq!(postings[0].title, "Good");
    assert_eq!(postings[0].url, format!("https://dice.com/job-detail/{}", ID));
}

#[test]
fn anchors_without_id_are_skipped() {
    let anchors = vec![anchor(None, "No id"), anchor(Some(ID), "Has id")];
    let postings = extract(&anchors, 3);
    assert_eq!(postings.len(), 1);
    assert_eq!(postings[0].page_number, 3);
}

#[test]
fn distinct_identifiers_keep_document_order() {
    let other = "00000000-1111-2222-3333-444444444444";
    let anchors = vec![anchor(Some(ID), "A"), anchor(Some(other), "B"), anchor(Some(ID), "C")];
    let postings = extract(&anchors, 1);
    assert_eq!(postings.len(), 2);
    assert_eq!(postings[0].identifier, ID);
    assert_eq!(postings[0].title, "A");
    assert_eq!(postings[1].identifier, other);
    assert_eq!(postings[1].title, "B");
}

#[test]
fn empty_page_yields_no_postings() {
    let postings = extract(&Vec::new(), 1);
    assert!(postings.is_empty());
}

#[test]
fn identifier_shape_is_exact() {
    assert!(uuid_shaped(ID));
    assert!(!uuid_shaped("not-a-uuid"));
    assert!(!uuid_shaped(""));
    // Uppercase hex is rejected.
    assert!(!uuid_shaped("F0767D15-68A2-4C23-95C6-5685DEDF2D2D"));
    // A dash out of place is rejected.
    assert!(!uuid_shaped("f0767d156-8a2-4c23-95c6-5685dedf2d2d"));
    // One character short.
    assert!(!uuid_shaped("f0767d15-68a2-4c23-95c6-5685dedf2d2"));
    // One character long.
    assert!(!uuid_shaped("f0767d15-68a2-4c23-95c6-5685dedf2d2dd"));
    // 'g' is not a hex digit.
    assert!(!uuid_shaped("g0767d15-68a2-4c23-95c6-5685dedf2d2d"));
    // A multi-byte character cannot pass the byte-shape test.
    assert!(!uuid_shaped("f0767d15-68a2-4c23-95c6-5685dedf2d2\u{e9}"));
}
