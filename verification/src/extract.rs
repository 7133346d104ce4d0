//! Posting extractor: scan the anchors of a rendered results page, keep the
//! ones whose id attribute has the identifier shape, deduplicate by
//! identifier with the first-seen title winning, and synthesize each
//! posting's canonical detail URL.

use vstd::prelude::*;
use vstd::string::StringExecFns;
use vstd::utf8::encode_utf8;

use crate::ident::is_uuid_shaped;
use crate::ident::uuid_shaped;

verus! {

/// An anchor element as read off the page: its id attribute, if any, and its
/// text content.
pub struct Anchor {
    pub id: Option<String>,
    pub text: String,
}

/// A discovered posting. Identity is the identifier.
pub struct Posting {
    pub page_number: usize,
    pub title: String,
    pub identifier: String,
    pub url: String,
}

/// An anchor contributes a posting when it has an id attribute of the
/// identifier shape.
pub open spec fn anchor_matches(a: Anchor) -> bool {
    &&& a.id is Some
    &&& is_uuid_shaped(encode_utf8(a.id->0@))
}

/// The (identifier, title) pairs extracted from the anchors, given the set
/// of identifiers already seen: matching anchors in order, each identifier
/// kept only the first time it shows up.
pub open spec fn extract_pairs(anchors: Seq<Anchor>, seen: Set<Seq<char>>) -> Seq<
    (Seq<char>, Seq<char>),
>
    decreases anchors.len(),
{
    if anchors.len() == 0 {
        Seq::empty()
    } else {
        let a = anchors[0];
        if anchor_matches(a) && !seen.contains(a.id->0@) {
            seq![(a.id->0@, a.text@)] + extract_pairs(
                anchors.drop_first(),
                seen.insert(a.id->0@),
            )
        } else {
            extract_pairs(anchors.drop_first(), seen)
        }
    }
}

/// What one extraction call returns, as (identifier, title) pairs.
pub open spec fn extract_spec(anchors: Seq<Anchor>) -> Seq<(Seq<char>, Seq<char>)> {
    extract_pairs(anchors, Set::empty())
}

/// The pairs behind a sequence of postings.
pub open spec fn posting_pairs(ps: Seq<Posting>) -> Seq<(Seq<char>, Seq<char>)> {
    ps.map_values(|p: Posting| (p.identifier@, p.title@))
}

/// The identifiers held by a vector of already-seen id strings.
pub open spec fn seen_ids(sv: Seq<String>) -> Set<Seq<char>> {
    Set::new(|id: Seq<char>| exists|j: int| 0 <= j < sv.len() && (#[trigger] sv[j])@ == id)
}

fn contains_string(seen: &Vec<String>, id: &String) -> (r: bool)
    ensures
        r == seen_ids(seen@).contains(id@),
{
    let mut j: usize = 0;
    while j < seen.len()
        invariant
            0 <= j <= seen@.len(),
            forall|t: int| 0 <= t < j ==> (#[trigger] seen@[t])@ != id@,
        decreases seen@.len() - j,
    {
        if seen[j] == *id {
            proof {
                assert((seen@[j as int])@ == id@);
                assert(seen_ids(seen@).contains(id@));
            }
            return true;
        }
        j = j + 1;
    }
    proof {
        assert(!seen_ids(seen@).contains(id@));
    }
    false
}

proof fn lemma_extract_pairs_fresh(anchors: Seq<Anchor>, seen: Set<Seq<char>>)
    ensures
        forall|i: int|
            0 <= i < extract_pairs(anchors, seen).len() ==> !seen.contains(
                (#[trigger] extract_pairs(anchors, seen)[i]).0,
            ),
        forall|i: int, j: int|
            0 <= i < j < extract_pairs(anchors, seen).len() ==> (#[trigger] extract_pairs(
                anchors,
                seen,
            )[i]).0 != (#[trigger] extract_pairs(anchors, seen)[j]).0,
    decreases anchors.len(),
{
    if anchors.len() == 0 {
    } else {
        let a = anchors[0];
        let rest = anchors.drop_first();
        let ps = extract_pairs(anchors, seen);
        if anchor_matches(a) && !seen.contains(a.id->0@) {
            let id = a.id->0@;
            let seen2 = seen.insert(id);
            lemma_extract_pairs_fresh(rest, seen2);
            let tail = extract_pairs(rest, seen2);
            assert(ps == seq![(id, a.text@)] + tail);
            assert forall|i: int| 0 <= i < ps.len() implies !seen.contains(ps[i].0) by {
                if i == 0 {
                    assert(ps[0].0 == id);
                } else {
                    assert(ps[i] == tail[i - 1]);
                    assert(!seen2.contains(tail[i - 1].0));
                }
            }
            assert forall|i: int, j: int| 0 <= i < j < ps.len() implies ps[i].0 != ps[j].0 by {
                if i == 0 {
                    assert(ps[j] == tail[j - 1]);
                    assert(!seen2.contains(tail[j - 1].0));
                    assert(seen2.contains(id));
                } else {
                    assert(ps[i] == tail[i - 1]);
                    assert(ps[j] == tail[j - 1]);
                }
            }
        } else {
            lemma_extract_pairs_fresh(rest, seen);
            assert(ps == extract_pairs(rest, seen));
        }
    }
}

proof fn lemma_extract_pairs_complete(anchors: Seq<Anchor>, seen: Set<Seq<char>>, k: int)
    requires
        0 <= k < anchors.len(),
        anchor_matches(anchors[k]),
        !seen.contains(anchors[k].id->0@),
    ensures
        exists|i: int|
            0 <= i < extract_pairs(anchors, seen).len() && (#[trigger] extract_pairs(
                anchors,
                seen,
            )[i]).0 == anchors[k].id->0@,
    decreases anchors.len(),
{
    let a = anchors[0];
    let rest = anchors.drop_first();
    let ps = extract_pairs(anchors, seen);
    if anchor_matches(a) && !seen.contains(a.id->0@) {
        let id = a.id->0@;
        let tail = extract_pairs(rest, seen.insert(id));
        assert(ps == seq![(id, a.text@)] + tail);
        if anchors[k].id->0@ == id {
            assert(ps[0].0 == anchors[k].id->0@);
        } else {
            assert(k >= 1);
            assert(rest[k - 1] == anchors[k]);
            assert(!seen.insert(id).contains(anchors[k].id->0@));
            lemma_extract_pairs_complete(rest, seen.insert(id), k - 1);
            let i0 = choose|i: int|
                0 <= i < tail.len() && (#[trigger] tail[i]).0 == rest[k - 1].id->0@;
            assert(ps[i0 + 1] == tail[i0]);
        }
    } else {
        assert(k >= 1);
        assert(rest[k - 1] == anchors[k]);
        lemma_extract_pairs_complete(rest, seen, k - 1);
        assert(ps == extract_pairs(rest, seen));
    }
}

/// Law: the shape filter is the only gate — every anchor whose id attribute
/// has the identifier shape is represented in the extraction result under
/// that identifier.
pub proof fn lemma_extract_filter_complete(anchors: Seq<Anchor>, k: int)
    requires
        0 <= k < anchors.len(),
        anchor_matches(anchors[k]),
    ensures
        exists|i: int|
            0 <= i < extract_spec(anchors).len() && (#[trigger] extract_spec(anchors)[i]).0
                == anchors[k].id->0@,
{
    lemma_extract_pairs_complete(anchors, Set::empty(), k);
    let i0 = choose|i: int|
        0 <= i < extract_pairs(anchors, Set::empty()).len() && (#[trigger] extract_pairs(
            anchors,
            Set::empty(),
        )[i]).0 == anchors[k].id->0@;
    assert((extract_spec(anchors)[i0]).0 == anchors[k].id->0@);
}

/// The position of the first anchor that matches the filter and bears `id`;
/// the length of the sequence when there is none.
pub open spec fn first_match_index(anchors: Seq<Anchor>, id: Seq<char>) -> int
    decreases anchors.len(),
{
    if anchors.len() == 0 {
        0
    } else if anchor_matches(anchors[0]) && anchors[0].id->0@ == id {
        0
    } else {
        1 + first_match_index(anchors.drop_first(), id)
    }
}

proof fn lemma_first_match_minimal(anchors: Seq<Anchor>, id: Seq<char>)
    ensures
        forall|k2: int|
            0 <= k2 < first_match_index(anchors, id) && k2 < anchors.len() ==> !(anchor_matches(
                #[trigger] anchors[k2],
            ) && anchors[k2].id->0@ == id),
    decreases anchors.len(),
{
    if anchors.len() == 0 {
    } else if anchor_matches(anchors[0]) && anchors[0].id->0@ == id {
    } else {
        let rest = anchors.drop_first();
        lemma_first_match_minimal(rest, id);
        assert forall|k2: int|
            0 <= k2 < first_match_index(anchors, id) && k2 < anchors.len() implies !(
        anchor_matches(anchors[k2]) && anchors[k2].id->0@ == id) by {
            if k2 >= 1 {
                assert(rest[k2 - 1] == anchors[k2]);
            }
        }
    }
}

proof fn lemma_extract_pairs_sound(anchors: Seq<Anchor>, seen: Set<Seq<char>>, i: int)
    requires
        0 <= i < extract_pairs(anchors, seen).len(),
    ensures
        ({
            let ps = extract_pairs(anchors, seen);
            let k = first_match_index(anchors, ps[i].0);
            &&& 0 <= k < anchors.len()
            &&& anchor_matches(anchors[k])
            &&& anchors[k].id->0@ == ps[i].0
            &&& anchors[k].text@ == ps[i].1
        }),
    decreases anchors.len(),
{
    let a = anchors[0];
    let rest = anchors.drop_first();
    let ps = extract_pairs(anchors, seen);
    if anchor_matches(a) && !seen.contains(a.id->0@) {
        let id0 = a.id->0@;
        let tail = extract_pairs(rest, seen.insert(id0));
        assert(ps == seq![(id0, a.text@)] + tail);
        if i == 0 {
            assert(first_match_index(anchors, id0) == 0);
        } else {
            assert(ps[i] == tail[i - 1]);
            lemma_extract_pairs_fresh(rest, seen.insert(id0));
            assert(!seen.insert(id0).contains(tail[i - 1].0));
            assert(ps[i].0 != id0);
            lemma_extract_pairs_sound(rest, seen.insert(id0), i - 1);
            assert(first_match_index(anchors, ps[i].0) == 1 + first_match_index(rest, ps[i].0));
            assert(anchors[first_match_index(anchors, ps[i].0)] == rest[first_match_index(
                rest,
                ps[i].0,
            )]);
        }
    } else {
        assert(ps == extract_pairs(rest, seen));
        lemma_extract_pairs_sound(rest, seen, i);
        if anchor_matches(a) {
            lemma_extract_pairs_fresh(rest, seen);
            assert(!seen.contains(ps[i].0));
            assert(ps[i].0 != a.id->0@);
        }
        assert(first_match_index(anchors, ps[i].0) == 1 + first_match_index(rest, ps[i].0));
        assert(anchors[first_match_index(anchors, ps[i].0)] == rest[first_match_index(
            rest,
            ps[i].0,
        )]);
    }
}

/// Law: the first-seen title wins — each extracted pair carries the
/// identifier and the text of the first anchor that passes the filter with
/// that identifier; no earlier anchor bears it.
pub proof fn lemma_extract_first_seen(anchors: Seq<Anchor>, i: int)
    requires
        0 <= i < extract_spec(anchors).len(),
    ensures
        ({
            let ps = extract_spec(anchors);
            let k = first_match_index(anchors, ps[i].0);
            &&& 0 <= k < anchors.len()
            &&& anchor_matches(anchors[k])
            &&& anchors[k].id->0@ == ps[i].0
            &&& anchors[k].text@ == ps[i].1
            &&& forall|k2: int|
                0 <= k2 < k ==> !(anchor_matches(#[trigger] anchors[k2]) && anchors[k2].id->0@
                    == ps[i].0)
        }),
{
    lemma_extract_pairs_sound(anchors, Set::empty(), i);
    lemma_first_match_minimal(anchors, extract_spec(anchors)[i].0);
}

/// Law: extraction deduplicates by identifier — within one extraction call
/// no two returned postings share an identifier, whatever the anchors hold.
pub proof fn lemma_extract_dedup(anchors: Seq<Anchor>)
    ensures
        forall|i: int, j: int|
            0 <= i < j < extract_spec(anchors).len() ==> (#[trigger] extract_spec(anchors)[i]).0
                != (#[trigger] extract_spec(anchors)[j]).0,
{
    lemma_extract_pairs_fresh(anchors, Set::empty());
}

/// Extract the postings of one results page from its anchors.
///
/// The result lists, in document order, one posting per distinct identifier
/// of the anchors that pass the shape filter; the title is the text of the
/// first anchor carrying that identifier, and the canonical URL is the fixed
/// detail-page template applied to the identifier.
pub fn extract(anchors: &Vec<Anchor>, page_number: usize) -> (r: Vec<Posting>)
    ensures
        posting_pairs(r@) == extract_spec(anchors@),
        forall|k: int|
            0 <= k < r@.len() ==> {
                &&& (#[trigger] r@[k]).page_number == page_number
                &&& r@[k].url@ == "https://dice.com/job-detail/"@ + r@[k].identifier@
            },
{
    let mut out: Vec<Posting> = Vec::new();
    let mut seen: Vec<String> = Vec::new();
    let mut i: usize = 0;
    proof {
        assert(anchors@.skip(0) =~= anchors@);
        assert(seen_ids(seen@) =~= Set::<Seq<char>>::empty());
        assert(posting_pairs(out@) =~= Seq::<(Seq<char>, Seq<char>)>::empty());
    }
    while i < anchors.len()
        invariant
            0 <= i <= anchors@.len(),
            extract_spec(anchors@) == posting_pairs(out@) + extract_pairs(
                anchors@.skip(i as int),
                seen_ids(seen@),
            ),
            forall|k: int|
                0 <= k < out@.len() ==> {
                    &&& (#[trigger] out@[k]).page_number == page_number
                    &&& out@[k].url@ == "https://dice.com/job-detail/"@ + out@[k].identifier@
                },
        decreases anchors@.len() - i,
    {
        let a = &anchors[i];
        proof {
            assert(anchors@.skip(i as int)[0] == anchors@[i as int]);
            assert(anchors@.skip(i as int).drop_first() =~= anchors@.skip(i as int + 1));
        }
        let mut took: bool = false;
        if let Some(id) = &a.id {
            if uuid_shaped(id.as_str()) {
                if !contains_string(&seen, id) {
                    took = true;
                    let mut url = "https://dice.com/job-detail/".to_owned();
                    url.append(id.as_str());
                    let posting = Posting {
                        page_number,
                        title: a.text.clone(),
                        identifier: id.clone(),
                        url,
                    };
                    let ghost old_out = out@;
                    let ghost old_seen = seen@;
                    out.push(posting);
                    seen.push(id.clone());
                    proof {
                        assert(anchor_matches(anchors@[i as int]));
                        assert(seen_ids(seen@) =~= seen_ids(old_seen).insert(id@)) by {
                            assert forall|x: Seq<char>|
                                seen_ids(seen@).contains(x) <==> seen_ids(old_seen).insert(
                                    id@,
                                ).contains(x) by {
                                if seen_ids(seen@).contains(x) {
                                    let j = choose|j: int|
                                        0 <= j < seen@.len() && (#[trigger] seen@[j])@ == x;
                                    if j < old_seen.len() {
                                        assert(old_seen[j]@ == x);
                                    } else {
                                        assert(seen@[j] == seen@[seen@.len() - 1]);
                                    }
                                }
                                if seen_ids(old_seen).insert(id@).contains(x) {
                                    if x == id@ {
                                        assert((seen@[seen@.len() - 1])@ == x);
                                    } else {
                                        let j = choose|j: int|
                                            0 <= j < old_seen.len() && (#[trigger] old_seen[j])@
                                                == x;
                                        assert((seen@[j])@ == x);
                                    }
                                }
                            }
                        }
                        assert(posting_pairs(out@) =~= posting_pairs(old_out).push(
                            (id@, anchors@[i as int].text@),
                        ));
                        assert(extract_pairs(anchors@.skip(i as int), seen_ids(old_seen))
                            =~= seq![(id@, anchors@[i as int].text@)] + extract_pairs(
                            anchors@.skip(i as int + 1),
                            seen_ids(old_seen).insert(id@),
                        ));
                        assert(posting_pairs(old_out) + extract_pairs(
                            anchors@.skip(i as int),
                            seen_ids(old_seen),
                        ) =~= posting_pairs(out@) + extract_pairs(
                            anchors@.skip(i as int + 1),
                            seen_ids(seen@),
                        ));
                    }
                }
            }
        }
        proof {
            if !took {
                assert(!(anchor_matches(anchors@[i as int]) && !seen_ids(seen@).contains(
                    anchors@[i as int].id->0@,
                )));
                assert(extract_pairs(anchors@.skip(i as int), seen_ids(seen@)) == extract_pairs(
                    anchors@.skip(i as int + 1),
                    seen_ids(seen@),
                ));
            }
        }
        i = i + 1;
    }
    proof {
        assert(anchors@.skip(anchors@.len() as int) =~= Seq::<Anchor>::empty());
        assert(extract_pairs(anchors@.skip(anchors@.len() as int), seen_ids(seen@))
            =~= Seq::<(Seq<char>, Seq<char>)>::empty());
        assert(posting_pairs(out@) + Seq::<(Seq<char>, Seq<char>)>::empty() =~= posting_pairs(
            out@,
        ));
    }
    out
}

} // verus!
