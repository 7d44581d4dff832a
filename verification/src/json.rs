//! The single-lookup endpoint: a GET request for one query subject, answered
//! by one JSON object.

use vstd::prelude::*;

use crate::common::{
    base_url, build_param_pairs, param_pairs, rendered_url, spec_base_url, ApiRequest, ApiResponse,
    EndpointError, HttpMethod,
};
use crate::lang::Lang;
use crate::rate_limit::{rate_limit_from_headers, rate_limit_of, RateLimit};
use crate::response::{parse_response_bytes, response_of_bytes, JsonResponseBodyJson};

verus! {

/// A single-lookup request: one query subject (an IP address or hostname),
/// an optional API key, and optional field-selection and language parameters.
#[derive(Debug, Clone)]
pub struct Json {
    pub query: String,
    pub key: Option<String>,
    pub fields: Option<String>,
    pub lang: Option<Lang>,
}

impl Json {
    /// A lookup of the given subject, with no field selection and no
    /// language override.
    pub fn new(query: &str, key: Option<String>) -> (r: Self)
        ensures
            r.query@ == query@,
            r.key == key,
            r.fields is None,
            r.lang is None,
    {
        Json { query: query.to_owned(), key, fields: None, lang: None }
    }

    /// The same lookup restricted to the given response fields.
    pub fn fields(self, fields: &str) -> (r: Self)
        ensures
            r.query == self.query,
            r.key == self.key,
            r.fields matches Some(f) && f@ == fields@,
            r.lang == self.lang,
    {
        Json { fields: Some(fields.to_owned()), ..self }
    }

    /// The same lookup with responses localized to the given language.
    pub fn lang(self, lang: Lang) -> (r: Self)
        ensures
            r.query == self.query,
            r.key == self.key,
            r.fields == self.fields,
            r.lang == Some(lang),
    {
        Json { lang: Some(lang), ..self }
    }

    /// The URL string assembled before validation: the base host for the
    /// key's tier, the path `/json/`, and the subject.
    pub open spec fn url_input(&self) -> Seq<char> {
        spec_base_url(self.key is Some) + "/json/"@ + self.query@
    }

    /// Renders the GET request: the validated URL with `key`, `fields` and
    /// `lang` appended in that order where present, a JSON accept header,
    /// and an empty body.
    pub fn render_request(&self) -> (r: Result<ApiRequest, EndpointError>)
        ensures
            (r matches Ok(req) ==> {
                &&& req.method == HttpMethod::Get
                &&& rendered_url(self.url_input(), param_pairs(self.key, self.fields, self.lang))
                    == Some(req.url@)
                &&& req.headers@.len() == 1
                &&& req.headers@[0].0@ == "accept"@
                &&& req.headers@[0].1@ == "application/json"@
                &&& req.body@ == Seq::<u8>::empty()
            }),
            (r matches Err(e) ==> {
                &&& rendered_url(self.url_input(), param_pairs(self.key, self.fields, self.lang))
                    is None
                &&& e is MakeRequestUrlFailed
            }),
    {
        let mut input = base_url(self.key.is_some()).to_owned();
        input.append("/json/");
        input.append(self.query.as_str());
        let pairs = build_param_pairs(&self.key, &self.fields, &self.lang);
        match crate::common::render_url(input.as_str(), &pairs) {
            Ok(url) => {
                let mut headers: Vec<(String, String)> = Vec::new();
                headers.push(("accept".to_owned(), "application/json".to_owned()));
                Ok(ApiRequest { method: HttpMethod::Get, url, headers, body: Vec::new() })
            },
            Err(e) => Err(e),
        }
    }

    /// Parses the response body as one result object and, when no API key
    /// was used, reads the rate-limit headers.
    pub fn parse_response(&self, response: ApiResponse) -> (r: Result<
        (JsonResponseBodyJson, Option<RateLimit>),
        EndpointError,
    >)
        ensures
            (r matches Ok(out) ==> {
                &&& response_of_bytes(response.body@) == Some(out.0@)
                &&& out.1 == (if self.key is Some {
                    None::<RateLimit>
                } else {
                    Some(rate_limit_of(response.headers@))
                })
            }),
            (r matches Err(e) ==> {
                &&& response_of_bytes(response.body@) is None
                &&& e is DeResponseBodyJsonFailed
            }),
    {
        match parse_response_bytes(&response.body) {
            Some(body) => {
                let rate_limit = if self.key.is_some() {
                    None
                } else {
                    Some(rate_limit_from_headers(&response.headers))
                };
                Ok((body, rate_limit))
            },
            None => Err(
                EndpointError::DeResponseBodyJsonFailed(
                    "response body is not a result object".to_owned(),
                ),
            ),
        }
    }
}

} // verus!
