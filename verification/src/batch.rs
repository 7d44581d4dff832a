//! The batch-lookup endpoint: a POST request carrying up to 100 query
//! subjects as a JSON array, answered by a JSON array of result objects.
//!
//! Each array element is a bare JSON string where the subject carries no
//! per-subject overrides, and otherwise an object holding `query` plus the
//! present overrides; the service distinguishes the two shapes, so the
//! rendering preserves them exactly.

use vstd::prelude::*;
use vstd::utf8::encode_utf8;

use crate::common::{
    base_url, build_param_pairs, param_pairs, rendered_url, spec_base_url, ApiRequest, ApiResponse,
    EndpointError, HttpMethod,
};
use crate::encode::{append_json_string, json_string_bytes};
use crate::lang::{lang_code, Lang};
use crate::rate_limit::{rate_limit_from_headers, rate_limit_of, RateLimit};
use crate::response::{
    json_array_elems, parse_array_elems, parse_response_bytes, response_of_bytes,
    JsonResponseBodyJson, ResponseV,
};

verus! {

/// The most subjects one batch request may carry.
pub const MAX_QUERY: usize = 100;

/// One subject of a batch lookup, with its optional per-subject
/// field-selection and language overrides.
#[derive(Debug, Clone)]
pub struct BatchQuery {
    pub query: String,
    pub fields: Option<String>,
    pub lang: Option<Lang>,
}

impl BatchQuery {
    /// A subject with no overrides.
    pub fn new(query: &str) -> (r: Self)
        ensures
            r.query@ == query@,
            r.fields is None,
            r.lang is None,
    {
        BatchQuery { query: query.to_owned(), fields: None, lang: None }
    }

    /// The same subject restricted to the given response fields.
    pub fn fields(self, fields: &str) -> (r: Self)
        ensures
            r.query == self.query,
            r.fields matches Some(f) && f@ == fields@,
            r.lang == self.lang,
    {
        BatchQuery { fields: Some(fields.to_owned()), ..self }
    }

    /// The same subject with responses localized to the given language.
    pub fn lang(self, lang: Lang) -> (r: Self)
        ensures
            r.query == self.query,
            r.fields == self.fields,
            r.lang == Some(lang),
    {
        BatchQuery { lang: Some(lang), ..self }
    }
}

/// A batch-lookup request: the subjects in order, an optional API key, and
/// optional request-level field-selection and language parameters.
#[derive(Debug, Clone)]
pub struct Batch {
    pub queries: Vec<BatchQuery>,
    pub key: Option<String>,
    pub fields: Option<String>,
    pub lang: Option<Lang>,
}

/// The JSON rendering of one batch element: a bare string for a subject
/// without overrides, otherwise an object holding exactly `query` and the
/// present overrides, in that order.
pub open spec fn elem_bytes(q: BatchQuery) -> Seq<u8> {
    if q.fields is None && q.lang is None {
        json_string_bytes(encode_utf8(q.query@))
    } else {
        obj_query_prefix() + json_string_bytes(encode_utf8(q.query@)) + (match q.fields {
            Some(f) => obj_fields_prefix() + json_string_bytes(encode_utf8(f@)),
            None => Seq::empty(),
        }) + (match q.lang {
            Some(l) => obj_lang_prefix() + json_string_bytes(encode_utf8(lang_code(l))),
            None => Seq::empty(),
        }) + seq![0x7du8]
    }
}

/// The bytes of `{"query":`.
pub open spec fn obj_query_prefix() -> Seq<u8> {
    seq![0x7bu8, 0x22u8, 0x71u8, 0x75u8, 0x65u8, 0x72u8, 0x79u8, 0x22u8, 0x3au8]
}

/// The bytes of `,"fields":`.
pub open spec fn obj_fields_prefix() -> Seq<u8> {
    seq![0x2cu8, 0x22u8, 0x66u8, 0x69u8, 0x65u8, 0x6cu8, 0x64u8, 0x73u8, 0x22u8, 0x3au8]
}

/// The bytes of `,"lang":`.
pub open spec fn obj_lang_prefix() -> Seq<u8> {
    seq![0x2cu8, 0x22u8, 0x6cu8, 0x61u8, 0x6eu8, 0x67u8, 0x22u8, 0x3au8]
}

/// Batch elements joined with comma separators.
pub open spec fn elems_joined(qs: Seq<BatchQuery>) -> Seq<u8>
    decreases qs.len(),
{
    if qs.len() == 0 {
        Seq::empty()
    } else if qs.len() == 1 {
        elem_bytes(qs[0])
    } else {
        elems_joined(qs.drop_last()) + seq![0x2cu8] + elem_bytes(qs.last())
    }
}

/// The JSON array rendering of a batch's subjects.
pub open spec fn batch_body_bytes(qs: Seq<BatchQuery>) -> Seq<u8> {
    seq![0x5bu8] + elems_joined(qs) + seq![0x5du8]
}

/// A subject without overrides renders as a bare JSON string, not an object.
pub proof fn lemma_elem_without_overrides_is_bare_string(q: BatchQuery)
    requires
        q.fields is None,
        q.lang is None,
    ensures
        elem_bytes(q) == json_string_bytes(encode_utf8(q.query@)),
{
}

/// A subject with any override renders as an object holding exactly `query`
/// followed by the present overrides, in that order.
pub proof fn lemma_elem_with_overrides_is_object(q: BatchQuery)
    requires
        q.fields is Some || q.lang is Some,
    ensures
        elem_bytes(q) == obj_query_prefix() + json_string_bytes(encode_utf8(q.query@)) + (match q
            .fields {
            Some(f) => obj_fields_prefix() + json_string_bytes(encode_utf8(f@)),
            None => Seq::empty(),
        }) + (match q.lang {
            Some(l) => obj_lang_prefix() + json_string_bytes(encode_utf8(lang_code(l))),
            None => Seq::empty(),
        }) + seq![0x7du8],
{
}

/// Appends the JSON rendering of one batch element.
#[verifier::rlimit(50)]
fn append_elem(out: &mut Vec<u8>, q: &BatchQuery)
    ensures
        final(out)@ == old(out)@ + elem_bytes(*q),
{
    let qb = q.query.as_str().as_bytes_vec();
    if q.fields.is_none() && q.lang.is_none() {
        append_json_string(out, &qb);
    } else {
        let ghost start = out@;
        out.push(0x7b);
        out.push(0x22);
        out.push(0x71);
        out.push(0x75);
        out.push(0x65);
        out.push(0x72);
        out.push(0x79);
        out.push(0x22);
        out.push(0x3a);
        proof {
            assert(out@ =~= start + obj_query_prefix());
        }
        append_json_string(out, &qb);
        let ghost with_query = start + obj_query_prefix() + json_string_bytes(
            encode_utf8(q.query@),
        );
        proof {
            assert(out@ =~= with_query);
        }
        match &q.fields {
            Some(f) => {
                out.push(0x2c);
                out.push(0x22);
                out.push(0x66);
                out.push(0x69);
                out.push(0x65);
                out.push(0x6c);
                out.push(0x64);
                out.push(0x73);
                out.push(0x22);
                out.push(0x3a);
                proof {
                    assert(out@ =~= with_query + obj_fields_prefix());
                }
                let fb = f.as_str().as_bytes_vec();
                append_json_string(out, &fb);
            },
            None => {},
        }
        let ghost with_fields = with_query + (match &q.fields {
            Some(f) => obj_fields_prefix() + json_string_bytes(encode_utf8(f@)),
            None => Seq::<u8>::empty(),
        });
        proof {
            assert(out@ =~= with_fields);
        }
        match &q.lang {
            Some(l) => {
                out.push(0x2c);
                out.push(0x22);
                out.push(0x6c);
                out.push(0x61);
                out.push(0x6e);
                out.push(0x67);
                out.push(0x22);
                out.push(0x3a);
                proof {
                    assert(out@ =~= with_fields + obj_lang_prefix());
                }
                let lb = l.as_code().as_bytes_vec();
                append_json_string(out, &lb);
            },
            None => {},
        }
        let ghost with_lang = with_fields + (match &q.lang {
            Some(l) => obj_lang_prefix() + json_string_bytes(encode_utf8(lang_code(*l))),
            None => Seq::<u8>::empty(),
        });
        proof {
            assert(out@ =~= with_lang);
        }
        out.push(0x7d);
        proof {
            assert(out@ =~= old(out)@ + elem_bytes(*q));
        }
    }
}

/// Renders the JSON array body of a batch's subjects.
fn render_body(queries: &Vec<BatchQuery>) -> (r: Vec<u8>)
    ensures
        r@ == batch_body_bytes(queries@),
{
    let mut out: Vec<u8> = Vec::new();
    out.push(0x5b);
    let mut i: usize = 0;
    while i < queries.len()
        invariant
            i <= queries@.len(),
            out@ == seq![0x5bu8] + elems_joined(queries@.take(i as int)),
        decreases queries@.len() - i,
    {
        if i > 0 {
            out.push(0x2c);
        }
        append_elem(&mut out, &queries[i]);
        proof {
            let qs = queries@;
            assert(qs.take(i + 1).drop_last() =~= qs.take(i as int));
            assert(qs.take(i + 1).last() == qs[i as int]);
            if i == 0 {
                assert(elems_joined(qs.take(1)) == elem_bytes(qs[0]));
                assert(out@ =~= seq![0x5bu8] + elems_joined(qs.take(1)));
            } else {
                assert(elems_joined(qs.take(i + 1)) == elems_joined(qs.take(i as int))
                    + seq![0x2cu8] + elem_bytes(qs[i as int]));
                assert(out@ =~= seq![0x5bu8] + elems_joined(qs.take(i + 1)));
            }
        }
        i = i + 1;
    }
    out.push(0x5d);
    proof {
        assert(queries@.take(queries@.len() as int) =~= queries@);
        assert(out@ =~= batch_body_bytes(queries@));
    }
    out
}

/// The results a batch response's bytes describe, in order: `None` where the
/// bytes are not a JSON array or any element fits no shape.
pub open spec fn batch_response_of(bytes: Seq<u8>) -> Option<Seq<ResponseV>> {
    match json_array_elems(bytes) {
        Some(elems) => if forall|i: int|
            0 <= i < elems.len() ==> response_of_bytes(#[trigger] elems[i]) is Some {
            Some(Seq::new(elems.len(), |i: int| response_of_bytes(elems[i]).unwrap()))
        } else {
            None
        },
        None => None,
    }
}

/// A batch response body: the parsed result objects in order.
#[derive(Debug, Clone)]
pub struct BatchResponseBodyJson(pub Vec<JsonResponseBodyJson>);

impl View for BatchResponseBodyJson {
    type V = Seq<ResponseV>;

    open spec fn view(&self) -> Seq<ResponseV> {
        Seq::new(self.0@.len(), |i: int| self.0@[i]@)
    }
}

impl Batch {
    /// A batch lookup of the given subjects. Callers hand over at most
    /// `MAX_QUERY` subjects; the service accepts no more per request.
    pub fn new(queries: Vec<BatchQuery>, key: Option<String>) -> (r: Self)
        requires
            queries@.len() <= MAX_QUERY,
        ensures
            r.queries == queries,
            r.key == key,
            r.fields is None,
            r.lang is None,
    {
        Batch { queries, key, fields: None, lang: None }
    }

    /// The same batch restricted to the given response fields, at the
    /// request level.
    pub fn fields(self, fields: &str) -> (r: Self)
        ensures
            r.queries == self.queries,
            r.key == self.key,
            r.fields matches Some(f) && f@ == fields@,
            r.lang == self.lang,
    {
        Batch { fields: Some(fields.to_owned()), ..self }
    }

    /// The same batch with responses localized to the given language, at the
    /// request level.
    pub fn lang(self, lang: Lang) -> (r: Self)
        ensures
            r.queries == self.queries,
            r.key == self.key,
            r.fields == self.fields,
            r.lang == Some(lang),
    {
        Batch { lang: Some(lang), ..self }
    }

    /// The URL string assembled before validation: the base host for the
    /// key's tier and the path `/batch`.
    pub open spec fn url_input(&self) -> Seq<char> {
        spec_base_url(self.key is Some) + "/batch"@
    }

    /// Renders the POST request: the validated URL with `key`, `fields` and
    /// `lang` appended in that order where present, JSON content-type and
    /// accept headers, and the subjects as the JSON array body.
    pub fn render_request(&self) -> (r: Result<ApiRequest, EndpointError>)
        ensures
            (r matches Ok(req) ==> {
                &&& req.method == HttpMethod::Post
                &&& rendered_url(self.url_input(), param_pairs(self.key, self.fields, self.lang))
                    == Some(req.url@)
                &&& req.headers@.len() == 2
                &&& req.headers@[0].0@ == "content-type"@
                &&& req.headers@[0].1@ == "application/json"@
                &&& req.headers@[1].0@ == "accept"@
                &&& req.headers@[1].1@ == "application/json"@
                &&& req.body@ == batch_body_bytes(self.queries@)
            }),
            (r matches Err(e) ==> {
                &&& rendered_url(self.url_input(), param_pairs(self.key, self.fields, self.lang))
                    is None
                &&& e is MakeRequestUrlFailed
            }),
    {
        let mut input = base_url(self.key.is_some()).to_owned();
        input.append("/batch");
        let pairs = build_param_pairs(&self.key, &self.fields, &self.lang);
        match crate::common::render_url(input.as_str(), &pairs) {
            Ok(url) => {
                let body = render_body(&self.queries);
                let mut headers: Vec<(String, String)> = Vec::new();
                headers.push(("content-type".to_owned(), "application/json".to_owned()));
                headers.push(("accept".to_owned(), "application/json".to_owned()));
                Ok(ApiRequest { method: HttpMethod::Post, url, headers, body })
            },
            Err(e) => Err(e),
        }
    }

    /// Parses the response body as an array of result objects, in order,
    /// and, when no API key was used, reads the rate-limit headers.
    pub fn parse_response(&self, response: ApiResponse) -> (r: Result<
        (BatchResponseBodyJson, Option<RateLimit>),
        EndpointError,
    >)
        ensures
            (r matches Ok(out) ==> {
                &&& batch_response_of(response.body@) == Some(out.0@)
                &&& out.1 == (if self.key is Some {
                    None::<RateLimit>
                } else {
                    Some(rate_limit_of(response.headers@))
                })
            }),
            (r matches Err(e) ==> {
                &&& batch_response_of(response.body@) is None
                &&& e is DeResponseBodyJsonFailed
            }),
    {
        let elems = match parse_array_elems(&response.body) {
            Some(v) => v,
            None => {
                return Err(
                    EndpointError::DeResponseBodyJsonFailed(
                        "response body is not a result array".to_owned(),
                    ),
                );
            },
        };
        let ghost ev = json_array_elems(response.body@).unwrap();
        let mut results: Vec<JsonResponseBodyJson> = Vec::new();
        let mut i: usize = 0;
        while i < elems.len()
            invariant
                json_array_elems(response.body@) == Some(ev),
                ev.len() == elems@.len(),
                forall|j: int| 0 <= j < elems@.len() ==> ev[j] == elems@[j]@,
                i <= elems@.len(),
                results@.len() == i,
                forall|j: int|
                    0 <= j < i ==> response_of_bytes(#[trigger] ev[j]) is Some && results@[j]@
                        == response_of_bytes(ev[j]).unwrap(),
            decreases elems@.len() - i,
        {
            match parse_response_bytes(&elems[i]) {
                Some(x) => results.push(x),
                None => {
                    proof {
                        assert(response_of_bytes(ev[i as int]) is None);
                        assert(batch_response_of(response.body@) is None);
                    }
                    return Err(
                        EndpointError::DeResponseBodyJsonFailed(
                            "a batch element is not a result object".to_owned(),
                        ),
                    );
                },
            }
            i = i + 1;
        }
        let body = BatchResponseBodyJson(results);
        proof {
            assert(body@ =~= Seq::new(ev.len(), |i: int| response_of_bytes(ev[i]).unwrap()));
        }
        let rate_limit = if self.key.is_some() {
            None
        } else {
            Some(rate_limit_from_headers(&response.headers))
        };
        Ok((body, rate_limit))
    }
}

} // verus!
