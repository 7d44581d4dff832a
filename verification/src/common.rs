//! Shared pieces of the two endpoints: the error taxonomy, the plain request
//! and response descriptors handed to and received from the caller's
//! transport, base-host selection, and URL assembly.

use vstd::prelude::*;

use crate::encode::{append_form_encoded, form_encode, lemma_form_encode_ascii};
use crate::lang::{lang_code, Lang};

verus! {

/// What went wrong while rendering a request or parsing a response. Each
/// variant carries a human-readable description.
#[derive(Debug, Clone)]
pub enum EndpointError {
    /// The assembled URL did not parse as a valid absolute URL.
    MakeRequestUrlFailed(String),
    /// The request itself could not be assembled by the transport layer.
    MakeRequestFailed(String),
    /// The request body could not be serialized as JSON.
    SerRequestBodyJsonFailed(String),
    /// The response body was not JSON of the expected shape.
    DeResponseBodyJsonFailed(String),
}

/// The request method of an endpoint.
#[derive(Debug, Copy, Clone, PartialEq, Eq, Structural)]
pub enum HttpMethod {
    Get,
    Post,
}

/// A rendered request, ready for a transport: method, full URL, headers in
/// order, and body bytes.
#[derive(Debug, Clone)]
pub struct ApiRequest {
    pub method: HttpMethod,
    pub url: String,
    pub headers: Vec<(String, String)>,
    pub body: Vec<u8>,
}

/// A raw response as a transport hands it back: headers and body bytes.
#[derive(Debug, Clone)]
pub struct ApiResponse {
    pub headers: Vec<(String, String)>,
    pub body: Vec<u8>,
}

/// The base host: the pro host when an API key is supplied, the free host
/// otherwise.
pub open spec fn spec_base_url(pro: bool) -> Seq<char> {
    if pro {
        "https://pro.ip-api.com"@
    } else {
        "http://ip-api.com"@
    }
}

/// The base host, executable.
pub fn base_url(pro: bool) -> (r: &'static str)
    ensures
        r@ == spec_base_url(pro),
{
    if pro {
        "https://pro.ip-api.com"
    } else {
        "http://ip-api.com"
    }
}

/// What `url::Url::parse` makes of a string: `None` where it rejects the
/// string, otherwise the serialization of the parsed URL. The outcome depends
/// on the string alone.
pub uninterp spec fn parsed_url(s: Seq<char>) -> Option<Seq<char>>;

/// Relies on `url::Url::parse` to validate and normalize an absolute URL and
/// on `url::Url::as_str` for its serialization.
#[verifier::external_body]
fn url_parse_normalize(s: &str) -> (r: Result<String, String>)
    ensures
        (r matches Ok(u) ==> parsed_url(s@) == Some(u@)),
        (r is Err ==> parsed_url(s@) is None),
{
    match url::Url::parse(s) {
        Ok(u) => Ok(u.as_str().to_owned()),
        Err(e) => Err(e.to_string()),
    }
}

/// The characters spelled by a sequence of ASCII bytes.
pub open spec fn chars_of_bytes(bs: Seq<u8>) -> Seq<char> {
    Seq::new(bs.len(), |i: int| bs[i] as char)
}

/// Relies on `String::from_utf8`: a sequence of ASCII bytes decodes to the
/// string spelling exactly those bytes.
#[verifier::external_body]
fn ascii_to_string(v: Vec<u8>) -> (r: String)
    requires
        forall|i: int| 0 <= i < v@.len() ==> v@[i] < 0x80,
    ensures
        r@ == chars_of_bytes(v@),
{
    String::from_utf8(v).unwrap_or_default()
}

/// One `name=value` query pair, both sides form-urlencoded.
pub open spec fn pair_bytes(k: Seq<char>, v: Seq<char>) -> Seq<u8> {
    form_encode(vstd::utf8::encode_utf8(k)) + seq![0x3du8] + form_encode(
        vstd::utf8::encode_utf8(v),
    )
}

/// Query pairs joined with `&` separators.
pub open spec fn pairs_joined(pairs: Seq<(Seq<char>, Seq<char>)>) -> Seq<u8>
    decreases pairs.len(),
{
    if pairs.len() == 0 {
        Seq::empty()
    } else if pairs.len() == 1 {
        pair_bytes(pairs[0].0, pairs[0].1)
    } else {
        pairs_joined(pairs.drop_last()) + seq![0x26u8] + pair_bytes(pairs.last().0, pairs.last().1)
    }
}

/// The query suffix appended to a base URL: empty without pairs, otherwise
/// `?` followed by the joined pairs.
pub open spec fn query_suffix_bytes(pairs: Seq<(Seq<char>, Seq<char>)>) -> Seq<u8> {
    if pairs.len() == 0 {
        Seq::empty()
    } else {
        seq![0x3fu8] + pairs_joined(pairs)
    }
}

/// The views of a vector of owned query pairs.
pub open spec fn pair_views(pairs: Seq<(String, String)>) -> Seq<(Seq<char>, Seq<char>)> {
    pairs.map_values(|p: (String, String)| (p.0@, p.1@))
}

/// Every byte of a query suffix is ASCII.
pub proof fn lemma_query_suffix_ascii(pairs: Seq<(Seq<char>, Seq<char>)>)
    ensures
        forall|i: int|
            0 <= i < query_suffix_bytes(pairs).len() ==> query_suffix_bytes(pairs)[i] < 0x80,
    decreases pairs.len(),
{
    if pairs.len() == 0 {
    } else if pairs.len() == 1 {
        lemma_form_encode_ascii(vstd::utf8::encode_utf8(pairs[0].0));
        lemma_form_encode_ascii(vstd::utf8::encode_utf8(pairs[0].1));
        assert forall|i: int|
            0 <= i < query_suffix_bytes(pairs).len() implies query_suffix_bytes(pairs)[i]
            < 0x80 by {
            let ek = form_encode(vstd::utf8::encode_utf8(pairs[0].0));
            let ev = form_encode(vstd::utf8::encode_utf8(pairs[0].1));
            if i >= 1 {
                if i - 1 < ek.len() {
                    assert(query_suffix_bytes(pairs)[i] == ek[i - 1]);
                } else if i - 1 == ek.len() {
                    assert(query_suffix_bytes(pairs)[i] == 0x3d);
                } else {
                    assert(query_suffix_bytes(pairs)[i] == ev[i - 1 - ek.len() - 1]);
                }
            }
        }
    } else {
        lemma_query_suffix_ascii(pairs.drop_last());
        lemma_form_encode_ascii(vstd::utf8::encode_utf8(pairs.last().0));
        lemma_form_encode_ascii(vstd::utf8::encode_utf8(pairs.last().1));
        assert forall|i: int|
            0 <= i < query_suffix_bytes(pairs).len() implies query_suffix_bytes(pairs)[i]
            < 0x80 by {
            let prior = pairs_joined(pairs.drop_last());
            let ek = form_encode(vstd::utf8::encode_utf8(pairs.last().0));
            let ev = form_encode(vstd::utf8::encode_utf8(pairs.last().1));
            if i >= 1 {
                if i - 1 < prior.len() {
                    assert(pairs.drop_last().len() > 0);
                    assert(query_suffix_bytes(pairs.drop_last())[i] == prior[i - 1]);
                    assert(query_suffix_bytes(pairs)[i] == prior[i - 1]);
                } else if i - 1 == prior.len() {
                    assert(query_suffix_bytes(pairs)[i] == 0x26);
                } else if i - 1 - prior.len() - 1 < ek.len() {
                    assert(query_suffix_bytes(pairs)[i] == ek[i - 1 - prior.len() - 1]);
                } else if i - 1 - prior.len() - 1 == ek.len() {
                    assert(query_suffix_bytes(pairs)[i] == 0x3d);
                } else {
                    assert(query_suffix_bytes(pairs)[i] == ev[i - 1 - prior.len() - 1 - ek.len()
                        - 1]);
                }
            }
        }
    }
}

/// Appends one encoded pair to the byte buffer.
fn append_pair(out: &mut Vec<u8>, k: &String, v: &String)
    ensures
        final(out)@ == old(out)@ + pair_bytes(k@, v@),
{
    let kb = k.as_str().as_bytes_vec();
    let vb = v.as_str().as_bytes_vec();
    append_form_encoded(out, &kb);
    out.push(0x3d);
    append_form_encoded(out, &vb);
    proof {
        assert(out@ =~= old(out)@ + pair_bytes(k@, v@));
    }
}

/// Renders the query suffix of the given pairs.
fn query_suffix(pairs: &Vec<(String, String)>) -> (r: Vec<u8>)
    ensures
        r@ == query_suffix_bytes(pair_views(pairs@)),
{
    let mut out: Vec<u8> = Vec::new();
    if pairs.len() == 0 {
        return out;
    }
    out.push(0x3f);
    let mut i: usize = 0;
    while i < pairs.len()
        invariant
            0 < pairs@.len(),
            i <= pairs@.len(),
            out@ == seq![0x3fu8] + pairs_joined(pair_views(pairs@).take(i as int)),
        decreases pairs@.len() - i,
    {
        if i > 0 {
            out.push(0x26);
        }
        let p = &pairs[i];
        append_pair(&mut out, &p.0, &p.1);
        proof {
            let views = pair_views(pairs@);
            assert(views[i as int] == (pairs@[i as int].0@, pairs@[i as int].1@));
            assert(views.take(i + 1).drop_last() =~= views.take(i as int));
            assert(views.take(i + 1).last() == views[i as int]);
            if i == 0 {
                assert(pairs_joined(views.take(1)) == pair_bytes(views[0].0, views[0].1));
                assert(out@ =~= seq![0x3fu8] + pairs_joined(views.take(1)));
            } else {
                assert(pairs_joined(views.take(i + 1)) == pairs_joined(views.take(i as int))
                    + seq![0x26u8] + pair_bytes(views[i as int].0, views[i as int].1));
                assert(out@ =~= seq![0x3fu8] + pairs_joined(views.take(i + 1)));
            }
        }
        i = i + 1;
    }
    proof {
        assert(pair_views(pairs@).take(pairs@.len() as int) =~= pair_views(pairs@));
    }
    out
}

/// The request-level query parameters `key`, `fields` and `lang`, in that
/// order, each present only where supplied.
pub open spec fn param_pairs(
    key: Option<String>,
    fields: Option<String>,
    lang: Option<Lang>,
) -> Seq<(Seq<char>, Seq<char>)> {
    (match key {
        Some(k) => seq![("key"@, k@)],
        None => Seq::empty(),
    }) + (match fields {
        Some(f) => seq![("fields"@, f@)],
        None => Seq::empty(),
    }) + (match lang {
        Some(l) => seq![("lang"@, lang_code(l))],
        None => Seq::empty(),
    })
}

/// Builds the owned query pairs for the given request-level parameters.
pub fn build_param_pairs(
    key: &Option<String>,
    fields: &Option<String>,
    lang: &Option<Lang>,
) -> (r: Vec<(String, String)>)
    ensures
        pair_views(r@) == param_pairs(*key, *fields, *lang),
{
    let mut pairs: Vec<(String, String)> = Vec::new();
    match key {
        Some(k) => pairs.push(("key".to_owned(), k.clone())),
        None => {},
    }
    match fields {
        Some(f) => pairs.push(("fields".to_owned(), f.clone())),
        None => {},
    }
    match lang {
        Some(l) => pairs.push(("lang".to_owned(), l.to_string())),
        None => {},
    }
    proof {
        assert(pair_views(pairs@) =~= param_pairs(*key, *fields, *lang));
    }
    pairs
}

/// The full URL an endpoint renders: the normalized base followed by the
/// query suffix of the given pairs; `None` where the base does not parse.
pub open spec fn rendered_url(base_input: Seq<char>, pairs: Seq<(Seq<char>, Seq<char>)>) -> Option<
    Seq<char>,
> {
    match parsed_url(base_input) {
        Some(b) => Some(b + chars_of_bytes(query_suffix_bytes(pairs))),
        None => None,
    }
}

/// Validates the assembled base URL and appends the encoded query pairs.
pub fn render_url(base_input: &str, pairs: &Vec<(String, String)>) -> (r: Result<
    String,
    EndpointError,
>)
    ensures
        (r matches Ok(u) ==> rendered_url(base_input@, pair_views(pairs@)) == Some(u@)),
        (r matches Err(e) ==> {
            &&& rendered_url(base_input@, pair_views(pairs@)) is None
            &&& e is MakeRequestUrlFailed
        }),
{
    match url_parse_normalize(base_input) {
        Ok(base) => {
            let suffix = query_suffix(pairs);
            proof {
                lemma_query_suffix_ascii(pair_views(pairs@));
            }
            let suffix_str = ascii_to_string(suffix);
            Ok(base.concat(suffix_str.as_str()))
        },
        Err(m) => Err(EndpointError::MakeRequestUrlFailed(m)),
    }
}

} // verus!
