//! DOM probes for the easy-apply trigger: given the attribute values a
//! driver read off the page, pick the container div and the button that the
//! flow must click. The driver re-runs these probes under the wait engine
//! until one succeeds or the budget is spent.

use vstd::prelude::*;
use vstd::utf8::encode_utf8;
use vstd::utf8::encode_utf8_decode_utf8;

verus! {

/// `needle` occurs contiguously inside `hay`.
pub open spec fn has_substring(hay: Seq<u8>, needle: Seq<u8>) -> bool {
    exists|s: int|
        0 <= s <= hay.len() - needle.len() && #[trigger] hay.subrange(s, s + needle.len())
            == needle
}

fn bytes_eq(a: &[u8], b: &[u8]) -> (r: bool)
    ensures
        r == (a@ == b@),
{
    if a.len() != b.len() {
        return false;
    }
    let mut i: usize = 0;
    while i < a.len()
        invariant
            a@.len() == b@.len(),
            0 <= i <= a@.len(),
            forall|t: int| 0 <= t < i ==> a@[t] == b@[t],
        decreases a@.len() - i,
    {
        if a[i] != b[i] {
            return false;
        }
        i = i + 1;
    }
    proof {
        assert(a@ =~= b@);
    }
    true
}

/// Character-for-character string equality, decided over the UTF-8 bytes.
fn str_eq(a: &str, b: &str) -> (r: bool)
    ensures
        r == (a@ == b@),
{
    let r = bytes_eq(a.as_bytes(), b.as_bytes());
    proof {
        encode_utf8_decode_utf8(a@);
        encode_utf8_decode_utf8(b@);
    }
    r
}

fn match_at(hay: &[u8], needle: &[u8], s: usize) -> (r: bool)
    requires
        s + needle@.len() <= hay@.len(),
    ensures
        r == (hay@.subrange(s as int, s as int + needle@.len() as int) == needle@),
{
    let hay_len = hay.len();
    let mut j: usize = 0;
    while j < needle.len()
        invariant
            s + needle@.len() <= hay@.len(),
            hay_len == hay@.len(),
            0 <= j <= needle@.len(),
            forall|u: int| 0 <= u < j ==> hay@[s + u] == needle@[u],
        decreases needle@.len() - j,
    {
        if hay[s + j] != needle[j] {
            proof {
                assert(hay@.subrange(s as int, s as int + needle@.len() as int)[j as int]
                    == hay@[s + j]);
            }
            return false;
        }
        j = j + 1;
    }
    proof {
        assert(hay@.subrange(s as int, s as int + needle@.len() as int) =~= needle@);
    }
    true
}

/// Decide whether `needle` occurs inside `hay`.
pub fn contains_bytes(hay: &[u8], needle: &[u8]) -> (r: bool)
    ensures
        r == has_substring(hay@, needle@),
{
    if needle.len() > hay.len() {
        return false;
    }
    let last = hay.len() - needle.len();
    let mut s: usize = 0;
    while s <= last
        invariant
            needle@.len() <= hay@.len(),
            hay@.len() <= usize::MAX,
            last == hay@.len() - needle@.len(),
            0 <= s <= last + 1,
            forall|t: int|
                0 <= t < s ==> #[trigger] hay@.subrange(t, t + needle@.len() as int)
                    != needle@,
        decreases last + 1 - s,
    {
        if match_at(hay, needle, s) {
            return true;
        }
        proof {
            if needle@.len() == 0 {
                assert(hay@.subrange(s as int, s as int) =~= needle@);
            }
        }
        s = s + 1;
    }
    false
}

/// A button element as read off the page: its class attribute, if any, and
/// its visible text.
pub struct ButtonProbe {
    pub class: Option<String>,
    pub text: String,
}

/// The primary-action button the trigger stage clicks: its class names
/// contain "btn btn-primary" and its visible text is exactly "Easy apply".
pub open spec fn easy_apply_match(b: ButtonProbe) -> bool {
    &&& b.class is Some
    &&& has_substring(encode_utf8(b.class->0@), encode_utf8("btn btn-primary"@))
    &&& b.text@ == "Easy apply"@
}

/// Pick the first button that qualifies as the easy-apply trigger.
pub fn find_easy_apply(buttons: &Vec<ButtonProbe>) -> (r: Option<usize>)
    ensures
        (r matches Some(i) ==> {
            &&& 0 <= i < buttons@.len()
            &&& easy_apply_match(buttons@[i as int])
            &&& forall|j: int| 0 <= j < i ==> !easy_apply_match(buttons@[j])
        }),
        r is None ==> forall|j: int| 0 <= j < buttons@.len() ==> !easy_apply_match(buttons@[j]),
{
    let mut i: usize = 0;
    while i < buttons.len()
        invariant
            0 <= i <= buttons@.len(),
            forall|j: int| 0 <= j < i ==> !easy_apply_match(buttons@[j]),
        decreases buttons@.len() - i,
    {
        let b = &buttons[i];
        if let Some(class) = &b.class {
            if contains_bytes(class.as_str().as_bytes(), "btn btn-primary".as_bytes()) && str_eq(
                b.text.as_str(),
                "Easy apply",
            ) {
                return Some(i);
            }
        }
        i = i + 1;
    }
    None
}

/// The container the trigger button sits in: the div whose id is exactly
/// "applyButton".
pub open spec fn is_apply_container(id: Option<String>) -> bool {
    &&& id is Some
    &&& id->0@ == "applyButton"@
}

/// Pick the first div that is the apply-button container.
pub fn find_apply_container(div_ids: &Vec<Option<String>>) -> (r: Option<usize>)
    ensures
        (r matches Some(i) ==> {
            &&& 0 <= i < div_ids@.len()
            &&& is_apply_container(div_ids@[i as int])
            &&& forall|j: int| 0 <= j < i ==> !is_apply_container(div_ids@[j])
        }),
        r is None ==> forall|j: int|
            0 <= j < div_ids@.len() ==> !is_apply_container(div_ids@[j]),
{
    let mut i: usize = 0;
    while i < div_ids.len()
        invariant
            0 <= i <= div_ids@.len(),
            forall|j: int| 0 <= j < i ==> !is_apply_container(div_ids@[j]),
        decreases div_ids@.len() - i,
    {
        if let Some(id) = &div_ids[i] {
            if str_eq(id.as_str(), "applyButton") {
                return Some(i);
            }
        }
        i = i + 1;
    }
    None
}

} // verus!
