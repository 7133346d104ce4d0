//! Search URL builder: a structured query serialized into the query string
//! of the fixed search endpoint. The percent-encoding itself is delegated to
//! an outside crate whose output shape is stated exactly.

use vstd::prelude::*;
use vstd::string::StringExecFns;
use vstd::utf8::encode_utf8;

verus! {

/// Bytes the form encoding leaves as they are: alphanumerics and '*', '-',
/// '.', '_'.
pub open spec fn urlencode_unchanged(b: u8) -> bool {
    (0x30 <= b <= 0x39) || (0x41 <= b <= 0x5a) || (0x61 <= b <= 0x7a) || b == 0x2a || b == 0x2d
        || b == 0x2e || b == 0x5f
}

/// An uppercase hexadecimal digit.
pub open spec fn hex_upper_digit(v: int) -> char
    recommends
        0 <= v < 16,
{
    if v < 10 {
        ((0x30 + v) as u8) as char
    } else {
        ((0x41 + (v - 10)) as u8) as char
    }
}

/// How one byte of a component lands in the query string: kept, a '+' for a
/// space, or a '%' with two uppercase hex digits.
pub open spec fn urlencoded_byte(b: u8) -> Seq<char> {
    if urlencode_unchanged(b) {
        seq![b as char]
    } else if b == 0x20 {
        seq!['+']
    } else {
        seq!['%', hex_upper_digit(b as int / 16), hex_upper_digit(b as int % 16)]
    }
}

pub open spec fn urlencoded_bytes(s: Seq<u8>) -> Seq<char>
    decreases s.len(),
{
    if s.len() == 0 {
        Seq::empty()
    } else {
        urlencoded_byte(s[0]) + urlencoded_bytes(s.drop_first())
    }
}

/// A component form-urlencoded: its UTF-8 bytes, each encoded.
pub open spec fn urlencoded_component(s: Seq<char>) -> Seq<char> {
    urlencoded_bytes(encode_utf8(s))
}

/// `key=value` pairs, each component encoded, joined by '&'.
pub open spec fn urlencoded_pairs(pairs: Seq<(Seq<char>, Seq<char>)>) -> Seq<char>
    decreases pairs.len(),
{
    if pairs.len() == 0 {
        Seq::empty()
    } else {
        let head = urlencoded_component(pairs[0].0) + seq!['='] + urlencoded_component(
            pairs[0].1,
        );
        if pairs.len() == 1 {
            head
        } else {
            head + seq!['&'] + urlencoded_pairs(pairs.drop_first())
        }
    }
}

/// The character sequences behind a vector of string pairs.
pub open spec fn pair_views(pairs: Seq<(String, String)>) -> Seq<(Seq<char>, Seq<char>)> {
    pairs.map_values(|p: (String, String)| (p.0@, p.1@))
}

/// The structured search query, built once from configuration.
pub struct SearchQuery {
    pub q: String,
    pub location: String,
    pub country_code: String,
    pub filters_employment_type: String,
    pub filters_employer_type: String,
    pub filters_easy_apply: bool,
    pub language: String,
}

/// The one-line summary `describe` prints for a query.
pub open spec fn query_summary(query: SearchQuery) -> Seq<char> {
    "q: "@ + query.q@ + ", location: "@ + query.location@ + ", country_code: "@
        + query.country_code@ + ", filters_employer_type: "@ + query.filters_employer_type@
        + ", filters_easy_apply: "@ + (if query.filters_easy_apply {
        "true"@
    } else {
        "false"@
    }) + ", language: "@ + query.language@
}

impl SearchQuery {
    /// A one-line human-readable summary of the query, for logs.
    pub fn describe(&self) -> (r: String)
        ensures
            r@ == query_summary(*self),
    {
        let mut out = "q: ".to_owned();
        out.append(self.q.as_str());
        out.append(", location: ");
        out.append(self.location.as_str());
        out.append(", country_code: ");
        out.append(self.country_code.as_str());
        out.append(", filters_employer_type: ");
        out.append(self.filters_employer_type.as_str());
        out.append(", filters_easy_apply: ");
        out.append(if self.filters_easy_apply {
            "true"
        } else {
            "false"
        });
        out.append(", language: ");
        out.append(self.language.as_str());
        out
    }
}

/// The serialized field order and field names of a search query.
pub open spec fn search_pairs(query: SearchQuery) -> Seq<(Seq<char>, Seq<char>)> {
    seq![
        ("q"@, query.q@),
        ("location"@, query.location@),
        ("countryCode"@, query.country_code@),
        ("filters.employmentType"@, query.filters_employment_type@),
        ("filters.employerType"@, query.filters_employer_type@),
        ("filters.easyApply"@, if query.filters_easy_apply {
            "true"@
        } else {
            "false"@
        }),
        ("language"@, query.language@),
    ]
}

/// Lay a search query out as the key/value pairs its serialization sends.
pub fn query_pairs(query: &SearchQuery) -> (r: Vec<(String, String)>)
    ensures
        pair_views(r@) == search_pairs(*query),
{
    let mut out: Vec<(String, String)> = Vec::new();
    out.push(("q".to_owned(), query.q.clone()));
    out.push(("location".to_owned(), query.location.clone()));
    out.push(("countryCode".to_owned(), query.country_code.clone()));
    out.push(("filters.employmentType".to_owned(), query.filters_employment_type.clone()));
    out.push(("filters.employerType".to_owned(), query.filters_employer_type.clone()));
    out.push(
        (
            "filters.easyApply".to_owned(),
            if query.filters_easy_apply {
                "true".to_owned()
            } else {
                "false".to_owned()
            },
        ),
    );
    out.push(("language".to_owned(), query.language.clone()));
    proof {
        assert(pair_views(out@) =~= search_pairs(*query));
    }
    out
}

#[verifier::external_type_specification]
#[verifier::external_body]
pub struct ExUrlencodedSerError(serde_urlencoded::ser::Error);

/// Relies on serde_urlencoded::to_string over a sequence of string pairs: it
/// writes `key=value` joined by '&', keeping alphanumerics and '*', '-',
/// '.', '_', writing ' ' as '+' and every other byte of a component's UTF-8
/// encoding as '%' with two uppercase hex digits. On a sequence of plain
/// string pairs every path of its serializer returns Ok — errors arise only
/// for keys or values of other types — so success is part of the contract.
#[verifier::external_body]
pub(crate) fn urlencode_pairs(pairs: &Vec<(String, String)>) -> (r: Result<
    String,
    serde_urlencoded::ser::Error,
>)
    ensures
        r is Ok,
        r matches Ok(s) ==> s@ == urlencoded_pairs(pair_views(pairs@)),
{
    serde_urlencoded::to_string(pairs)
}

/// Attach an already-encoded query string to the fixed search endpoint.
pub fn assemble_search_url(encoded_query: &str) -> (u: String)
    ensures
        u@ == "https://dice.com/jobs?"@ + encoded_query@,
{
    let mut url = "https://dice.com/jobs?".to_owned();
    url.append(encoded_query);
    url
}

/// Serialize a search query into the search URL it targets. Every
/// well-formed query yields its URL: the serializer cannot refuse a sequence
/// of string pairs.
pub fn build_search_url(query: &SearchQuery) -> (u: String)
    ensures
        u@ == "https://dice.com/jobs?"@ + urlencoded_pairs(search_pairs(*query)),
{
    let pairs = query_pairs(query);
    match urlencode_pairs(&pairs) {
        Ok(encoded) => assemble_search_url(encoded.as_str()),
        Err(_) => {
            proof {
                assert(false);
            }
            assemble_search_url("")
        },
    }
}

} // verus!
