//! Deep-link payload codec: the apply flow is entered through a URL that
//! carries a base64url-encoded JSON object describing the posting and the
//! search that found it. The JSON text is built here byte by byte with its
//! escaping proved; only the base64url step is delegated to an outside crate.

use vstd::prelude::*;
use vstd::string::StringExecFns;
use vstd::string::StringSliceAdditionalSpecFns;
use vstd::utf8::encode_utf8;

verus! {

/// One digit of the URL-safe base64 alphabet: 'A'..'Z', 'a'..'z', '0'..'9',
/// '-', '_'.
pub open spec fn b64url_digit(v: int) -> char
    recommends
        0 <= v < 64,
{
    if v < 26 {
        ((0x41 + v) as u8) as char
    } else if v < 52 {
        ((0x61 + (v - 26)) as u8) as char
    } else if v < 62 {
        ((0x30 + (v - 52)) as u8) as char
    } else if v == 62 {
        '-'
    } else {
        '_'
    }
}

/// base64url with '=' padding: each group of three bytes becomes four
/// digits; a trailing group of one or two bytes becomes two or three digits
/// followed by padding.
pub open spec fn b64url_chars(s: Seq<u8>) -> Seq<char>
    decreases s.len(),
{
    if s.len() == 0 {
        Seq::empty()
    } else if s.len() == 1 {
        let b0 = s[0] as int;
        seq![b64url_digit(b0 / 4), b64url_digit(b0 % 4 * 16), '=', '=']
    } else if s.len() == 2 {
        let b0 = s[0] as int;
        let b1 = s[1] as int;
        seq![
            b64url_digit(b0 / 4),
            b64url_digit(b0 % 4 * 16 + b1 / 16),
            b64url_digit(b1 % 16 * 4),
            '=',
        ]
    } else {
        let b0 = s[0] as int;
        let b1 = s[1] as int;
        let b2 = s[2] as int;
        seq![
            b64url_digit(b0 / 4),
            b64url_digit(b0 % 4 * 16 + b1 / 16),
            b64url_digit(b1 % 16 * 4 + b2 / 64),
            b64url_digit(b2 % 64),
        ] + b64url_chars(s.skip(3))
    }
}

/// Relies on base64::encode_config with base64::URL_SAFE: the URL-safe
/// alphabet with '=' padding, laid out exactly as `b64url_chars` says. Its
/// buffer-size computation cannot overflow for any slice a program can hold,
/// so the call returns on every input.
#[verifier::external_body]
pub(crate) fn b64url_encode(bytes: &[u8]) -> (r: String)
    ensures
        r@ == b64url_chars(bytes@),
{
    base64::encode_config(bytes, base64::URL_SAFE)
}

/// A lowercase hexadecimal digit as a byte.
pub open spec fn hex_lower_digit(v: int) -> u8
    recommends
        0 <= v < 16,
{
    if v < 10 {
        (0x30 + v) as u8
    } else {
        (0x61 + (v - 10)) as u8
    }
}

/// How one byte of a string lands inside a JSON string literal: quote and
/// backslash get a backslash escape, control bytes get the \u00XX form, and
/// every other byte (UTF-8 continuation bytes included) passes through.
pub open spec fn json_escape_byte(b: u8) -> Seq<u8> {
    if b == 0x22 {
        seq![0x5cu8, 0x22u8]
    } else if b == 0x5c {
        seq![0x5cu8, 0x5cu8]
    } else if b < 0x20 {
        seq![
            0x5cu8,
            0x75u8,
            0x30u8,
            0x30u8,
            hex_lower_digit(b as int / 16),
            hex_lower_digit(b as int % 16),
        ]
    } else {
        seq![b]
    }
}

/// A byte string escaped for inclusion in a JSON string literal.
pub open spec fn json_escaped(s: Seq<u8>) -> Seq<u8>
    decreases s.len(),
{
    if s.len() == 0 {
        Seq::empty()
    } else {
        json_escape_byte(s[0]) + json_escaped(s.drop_first())
    }
}

proof fn lemma_json_escaped_push(s: Seq<u8>, b: u8)
    ensures
        json_escaped(s.push(b)) == json_escaped(s) + json_escape_byte(b),
    decreases s.len(),
{
    if s.len() == 0 {
        assert(s.push(b)[0] == b);
        assert(s.push(b).drop_first() =~= Seq::<u8>::empty());
        assert(json_escaped(s.push(b).drop_first()) == Seq::<u8>::empty());
        assert(json_escaped(s.push(b)) == json_escape_byte(b) + json_escaped(
            s.push(b).drop_first(),
        ));
        assert(json_escaped(s) == Seq::<u8>::empty());
        assert(json_escaped(s.push(b)) =~= json_escaped(s) + json_escape_byte(b));
    } else {
        assert(s.push(b)[0] == s[0]);
        assert(s.push(b).drop_first() =~= s.drop_first().push(b));
        lemma_json_escaped_push(s.drop_first(), b);
        assert(json_escaped(s.push(b)) =~= json_escaped(s) + json_escape_byte(b));
    }
}

fn hex_lower(v: u8) -> (r: u8)
    requires
        v < 16,
    ensures
        r == hex_lower_digit(v as int),
{
    if v < 10 {
        0x30 + v
    } else {
        0x61 + (v - 10)
    }
}

/// Append a byte slice to a buffer.
fn push_bytes(out: &mut Vec<u8>, s: &[u8])
    ensures
        final(out)@ == old(out)@ + s@,
{
    let mut i: usize = 0;
    while i < s.len()
        invariant
            out@ == old(out)@ + s@.take(i as int),
            0 <= i <= s@.len(),
        decreases s@.len() - i,
    {
        out.push(s[i]);
        proof {
            assert((old(out)@ + s@.take(i as int)).push(s@[i as int]) =~= old(out)@ + s@.take(
                i as int + 1,
            ));
        }
        i = i + 1;
    }
    proof {
        assert(s@.take(s@.len() as int) =~= s@);
    }
}

/// Append the JSON-escaped form of a byte string to a buffer.
fn json_escape_into(out: &mut Vec<u8>, s: &[u8])
    ensures
        final(out)@ == old(out)@ + json_escaped(s@),
{
    let mut i: usize = 0;
    while i < s.len()
        invariant
            out@ == old(out)@ + json_escaped(s@.take(i as int)),
            0 <= i <= s@.len(),
        decreases s@.len() - i,
    {
        let b = s[i];
        if b == 0x22 {
            out.push(0x5c);
            out.push(0x22);
        } else if b == 0x5c {
            out.push(0x5c);
            out.push(0x5c);
        } else if b < 0x20 {
            out.push(0x5c);
            out.push(0x75);
            out.push(0x30);
            out.push(0x30);
            out.push(hex_lower(b / 16));
            out.push(hex_lower(b % 16));
        } else {
            out.push(b);
        }
        proof {
            lemma_json_escaped_push(s@.take(i as int), s@[i as int]);
            assert(s@.take(i as int).push(s@[i as int]) =~= s@.take(i as int + 1));
            assert(out@ =~= old(out)@ + json_escaped(s@.take(i as int + 1)));
        }
        i = i + 1;
    }
    proof {
        assert(s@.take(s@.len() as int) =~= s@);
    }
}

/// The detail URL embedded in the payload: the posting's detail page with the
/// search query string appended.
pub open spec fn job_url_bytes(id: Seq<u8>, params: Seq<u8>) -> Seq<u8> {
    encode_utf8("https://www.dice.com/job-detail/"@) + id + encode_utf8("?"@) + params
}

/// The JSON object carried by a deep-link apply URL, as UTF-8 bytes, keys in
/// lexicographic order. `id`, `title` and `params` are the UTF-8 bytes of the
/// posting identifier, the posting title and the search query string.
pub open spec fn payload_bytes(id: Seq<u8>, title: Seq<u8>, params: Seq<u8>) -> Seq<u8> {
    encode_utf8("{\"djvVersion\":\"new\",\"jobId\":\""@) + json_escaped(id) + encode_utf8(
        "\",\"jobTitle\":\""@,
    ) + json_escaped(title) + encode_utf8("\",\"jobUrl\":\""@) + json_escaped(
        job_url_bytes(id, params),
    ) + encode_utf8("\",\"searchLink\":\""@) + json_escaped(
        encode_utf8("?searchlink=search%2F%3F"@) + params,
    ) + encode_utf8("\",\"searchParams\":\""@) + json_escaped(encode_utf8("?"@) + params)
        + encode_utf8("\"}"@)
}

/// The full deep-link apply URL for a posting: the fixed apply entry path
/// with the base64url-encoded JSON payload as its query string.
pub open spec fn apply_url_chars(id: Seq<char>, title: Seq<char>, params: Seq<char>) -> Seq<
    char,
> {
    "https://www.dice.com/apply?"@ + b64url_chars(
        payload_bytes(encode_utf8(id), encode_utf8(title), encode_utf8(params)),
    )
}

/// Compose the deep-link apply URL that embeds a posting's identifier and
/// title together with the originating search query string.
pub fn generate_encoded_url(job_id: &str, job_title: &str, search_params: &str) -> (r: String)
    ensures
        r@ == apply_url_chars(job_id@, job_title@, search_params@),
{
    let mut payload: Vec<u8> = Vec::new();
    push_bytes(&mut payload, "{\"djvVersion\":\"new\",\"jobId\":\"".as_bytes());
    json_escape_into(&mut payload, job_id.as_bytes());
    push_bytes(&mut payload, "\",\"jobTitle\":\"".as_bytes());
    json_escape_into(&mut payload, job_title.as_bytes());
    push_bytes(&mut payload, "\",\"jobUrl\":\"".as_bytes());

    let mut job_url: Vec<u8> = Vec::new();
    push_bytes(&mut job_url, "https://www.dice.com/job-detail/".as_bytes());
    push_bytes(&mut job_url, job_id.as_bytes());
    push_bytes(&mut job_url, "?".as_bytes());
    push_bytes(&mut job_url, search_params.as_bytes());
    proof {
        assert(job_url@ =~= job_url_bytes(job_id.spec_bytes(), search_params.spec_bytes()));
    }
    json_escape_into(&mut payload, job_url.as_slice());
    push_bytes(&mut payload, "\",\"searchLink\":\"".as_bytes());

    let mut search_link: Vec<u8> = Vec::new();
    push_bytes(&mut search_link, "?searchlink=search%2F%3F".as_bytes());
    push_bytes(&mut search_link, search_params.as_bytes());
    proof {
        assert(search_link@ =~= encode_utf8("?searchlink=search%2F%3F"@)
            + search_params.spec_bytes());
    }
    json_escape_into(&mut payload, search_link.as_slice());
    push_bytes(&mut payload, "\",\"searchParams\":\"".as_bytes());

    let mut params_field: Vec<u8> = Vec::new();
    push_bytes(&mut params_field, "?".as_bytes());
    push_bytes(&mut params_field, search_params.as_bytes());
    proof {
        assert(params_field@ =~= encode_utf8("?"@) + search_params.spec_bytes());
    }
    json_escape_into(&mut payload, params_field.as_slice());
    push_bytes(&mut payload, "\"}".as_bytes());

    proof {
        assert(payload@ =~= payload_bytes(
            job_id.spec_bytes(),
            job_title.spec_bytes(),
            search_params.spec_bytes(),
        ));
    }
    let encoded = b64url_encode(payload.as_slice());
    let mut url = "https://www.dice.com/apply?".to_owned();
    url.append(encoded.as_str());
    url
}

} // verus!
