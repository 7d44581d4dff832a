//! The response shapes of the service and the parser that decides, per JSON
//! object, whether it holds a success or a failure payload.
//!
//! The service does not always send a `status` discriminator, so the
//! decision follows a fixed precedence: a present `status` must be exactly
//! `success` or `fail`; otherwise a present `message` marks a failure;
//! otherwise the object is a success.

use vstd::prelude::*;

use crate::json_value::{
    bool_field, int_field, lookup_field, num_field, str_field, take_bool, take_int, take_num,
    take_str, get_field, JsonNumber, JsonNumberV, JsonVal,
};

verus! {

/// The geolocation attributes of a successful lookup. Every member the
/// response omits keeps its default: the empty string, zero, or `false`.
#[derive(Debug, Clone)]
pub struct JsonResponseBodySuccessJson {
    pub query: String,
    pub continent: String,
    pub continent_code: String,
    pub country: String,
    pub country_code: String,
    pub country_code3: String,
    pub region: String,
    pub region_name: String,
    pub city: String,
    pub district: String,
    pub zip: String,
    pub lat: JsonNumber,
    pub lon: JsonNumber,
    pub timezone: String,
    pub offset: i64,
    pub current_time: String,
    pub currency: String,
    pub calling_code: String,
    pub isp: String,
    pub org: String,
    pub as_: String,
    pub asname: String,
    pub reverse: String,
    pub mobile: bool,
    pub proxy: bool,
    pub hosting: bool,
}

/// The mathematical shadow of [`JsonResponseBodySuccessJson`].
pub ghost struct SuccessV {
    pub query: Seq<char>,
    pub continent: Seq<char>,
    pub continent_code: Seq<char>,
    pub country: Seq<char>,
    pub country_code: Seq<char>,
    pub country_code3: Seq<char>,
    pub region: Seq<char>,
    pub region_name: Seq<char>,
    pub city: Seq<char>,
    pub district: Seq<char>,
    pub zip: Seq<char>,
    pub lat: JsonNumberV,
    pub lon: JsonNumberV,
    pub timezone: Seq<char>,
    pub offset: i64,
    pub current_time: Seq<char>,
    pub currency: Seq<char>,
    pub calling_code: Seq<char>,
    pub isp: Seq<char>,
    pub org: Seq<char>,
    pub as_: Seq<char>,
    pub asname: Seq<char>,
    pub reverse: Seq<char>,
    pub mobile: bool,
    pub proxy: bool,
    pub hosting: bool,
}

impl View for JsonResponseBodySuccessJson {
    type V = SuccessV;

    open spec fn view(&self) -> SuccessV {
        SuccessV {
            query: self.query@,
            continent: self.continent@,
            continent_code: self.continent_code@,
            country: self.country@,
            country_code: self.country_code@,
            country_code3: self.country_code3@,
            region: self.region@,
            region_name: self.region_name@,
            city: self.city@,
            district: self.district@,
            zip: self.zip@,
            lat: self.lat@,
            lon: self.lon@,
            timezone: self.timezone@,
            offset: self.offset,
            current_time: self.current_time@,
            currency: self.currency@,
            calling_code: self.calling_code@,
            isp: self.isp@,
            org: self.org@,
            as_: self.as_@,
            asname: self.asname@,
            reverse: self.reverse@,
            mobile: self.mobile,
            proxy: self.proxy,
            hosting: self.hosting,
        }
    }
}

/// A failed lookup: the echoed query (possibly empty) and the required
/// human-readable message.
#[derive(Debug, Clone)]
pub struct JsonResponseBodyFailJson {
    pub query: String,
    pub message: String,
}

/// The mathematical shadow of [`JsonResponseBodyFailJson`].
pub ghost struct FailV {
    pub query: Seq<char>,
    pub message: Seq<char>,
}

impl View for JsonResponseBodyFailJson {
    type V = FailV;

    open spec fn view(&self) -> FailV {
        FailV { query: self.query@, message: self.message@ }
    }
}

/// One parsed response object: a success or a failure payload.
#[derive(Debug, Clone)]
pub enum JsonResponseBodyJson {
    Success(Box<JsonResponseBodySuccessJson>),
    Fail(JsonResponseBodyFailJson),
}

/// The mathematical shadow of [`JsonResponseBodyJson`].
pub ghost enum ResponseV {
    Success(SuccessV),
    Fail(FailV),
}

impl View for JsonResponseBodyJson {
    type V = ResponseV;

    open spec fn view(&self) -> ResponseV {
        match self {
            JsonResponseBodyJson::Success(s) => ResponseV::Success(s@),
            JsonResponseBodyJson::Fail(f) => ResponseV::Fail(f@),
        }
    }
}

impl JsonResponseBodyJson {
    /// Whether this is a success payload.
    pub fn is_success(&self) -> (r: bool)
        ensures
            r == (self@ is Success),
    {
        matches!(self, JsonResponseBodyJson::Success(_))
    }

    /// The success payload, if this is one.
    pub fn as_success(&self) -> (r: Option<&JsonResponseBodySuccessJson>)
        ensures
            (r matches Some(s) ==> self@ == ResponseV::Success(s@)),
            (r is None ==> self@ is Fail),
    {
        match self {
            JsonResponseBodyJson::Success(x) => Some(x),
            JsonResponseBodyJson::Fail(_) => None,
        }
    }

    /// The failure payload, if this is one.
    pub fn as_fail(&self) -> (r: Option<&JsonResponseBodyFailJson>)
        ensures
            (r matches Some(f) ==> self@ == ResponseV::Fail(f@)),
            (r is None ==> self@ is Success),
    {
        match self {
            JsonResponseBodyJson::Success(_) => None,
            JsonResponseBodyJson::Fail(x) => Some(x),
        }
    }
}

/// The success payload a JSON object's members describe, if every member the
/// shape reads has the right kind.
pub open spec fn success_of(fields: Seq<(String, JsonVal)>) -> Option<SuccessV> {
    let query = str_field(fields, "query"@);
    let continent = str_field(fields, "continent"@);
    let continent_code = str_field(fields, "continentCode"@);
    let country = str_field(fields, "country"@);
    let country_code = str_field(fields, "countryCode"@);
    let country_code3 = str_field(fields, "countryCode3"@);
    let region = str_field(fields, "region"@);
    let region_name = str_field(fields, "regionName"@);
    let city = str_field(fields, "city"@);
    let district = str_field(fields, "district"@);
    let zip = str_field(fields, "zip"@);
    let lat = num_field(fields, "lat"@);
    let lon = num_field(fields, "lon"@);
    let timezone = str_field(fields, "timezone"@);
    let offset = int_field(fields, "offset"@);
    let current_time = str_field(fields, "currentTime"@);
    let currency = str_field(fields, "currency"@);
    let calling_code = str_field(fields, "callingCode"@);
    let isp = str_field(fields, "isp"@);
    let org = str_field(fields, "org"@);
    let as_ = str_field(fields, "as"@);
    let asname = str_field(fields, "asname"@);
    let reverse = str_field(fields, "reverse"@);
    let mobile = bool_field(fields, "mobile"@);
    let proxy = bool_field(fields, "proxy"@);
    let hosting = bool_field(fields, "hosting"@);
    if query is Some && continent is Some && continent_code is Some && country is Some
        && country_code is Some && country_code3 is Some && region is Some && region_name is Some
        && city is Some && district is Some && zip is Some && lat is Some && lon is Some
        && timezone is Some && offset is Some && current_time is Some && currency is Some
        && calling_code is Some && isp is Some && org is Some && as_ is Some && asname is Some
        && reverse is Some && mobile is Some && proxy is Some && hosting is Some {
        Some(
            (SuccessV {
                query: query.unwrap(),
                continent: continent.unwrap(),
                continent_code: continent_code.unwrap(),
                country: country.unwrap(),
                country_code: country_code.unwrap(),
                country_code3: country_code3.unwrap(),
                region: region.unwrap(),
                region_name: region_name.unwrap(),
                city: city.unwrap(),
                district: district.unwrap(),
                zip: zip.unwrap(),
                lat: lat.unwrap(),
                lon: lon.unwrap(),
                timezone: timezone.unwrap(),
                offset: offset.unwrap(),
                current_time: current_time.unwrap(),
                currency: currency.unwrap(),
                calling_code: calling_code.unwrap(),
                isp: isp.unwrap(),
                org: org.unwrap(),
                as_: as_.unwrap(),
                asname: asname.unwrap(),
                reverse: reverse.unwrap(),
                mobile: mobile.unwrap(),
                proxy: proxy.unwrap(),
                hosting: hosting.unwrap(),
            }),
        )
    } else {
        None
    }
}

/// The failure payload a JSON object's members describe: `message` must be
/// present as a string, `query` defaults to the empty string.
pub open spec fn fail_of(fields: Seq<(String, JsonVal)>) -> Option<FailV> {
    let query = str_field(fields, "query"@);
    match lookup_field(fields, "message"@) {
        Some(JsonVal::Str(m)) => if query is Some {
            Some((FailV { query: query.unwrap(), message: m@ }))
        } else {
            None
        },
        _ => None,
    }
}

/// Which payload a JSON object holds, by the service's precedence: a present
/// `status` must be exactly `success` or `fail` and picks the shape; with no
/// `status`, a present `message` marks a failure; otherwise the object is a
/// success. `None` where the object fits no shape.
pub open spec fn discriminate(fields: Seq<(String, JsonVal)>) -> Option<ResponseV> {
    match lookup_field(fields, "status"@) {
        Some(JsonVal::Str(s)) => if s@ == "success"@ {
            match success_of(fields) {
                Some(v) => Some(ResponseV::Success(v)),
                None => None,
            }
        } else if s@ == "fail"@ {
            match fail_of(fields) {
                Some(v) => Some(ResponseV::Fail(v)),
                None => None,
            }
        } else {
            None
        },
        Some(_) => None,
        None => match lookup_field(fields, "message"@) {
            Some(_) => match fail_of(fields) {
                Some(v) => Some(ResponseV::Fail(v)),
                None => None,
            },
            None => match success_of(fields) {
                Some(v) => Some(ResponseV::Success(v)),
                None => None,
            },
        },
    }
}

/// Reads the success shape out of a JSON object's members.
fn parse_success(fields: &Vec<(String, JsonVal)>) -> (r: Option<JsonResponseBodySuccessJson>)
    ensures
        (r matches Some(x) ==> success_of(fields@) == Some(x@)),
        (r is None ==> success_of(fields@) is None),
{
    let query = take_str(fields, "query")?;
    let continent = take_str(fields, "continent")?;
    let continent_code = take_str(fields, "continentCode")?;
    let country = take_str(fields, "country")?;
    let country_code = take_str(fields, "countryCode")?;
    let country_code3 = take_str(fields, "countryCode3")?;
    let region = take_str(fields, "region")?;
    let region_name = take_str(fields, "regionName")?;
    let city = take_str(fields, "city")?;
    let district = take_str(fields, "district")?;
    let zip = take_str(fields, "zip")?;
    let lat = take_num(fields, "lat")?;
    let lon = take_num(fields, "lon")?;
    let timezone = take_str(fields, "timezone")?;
    let offset = take_int(fields, "offset")?;
    let current_time = take_str(fields, "currentTime")?;
    let currency = take_str(fields, "currency")?;
    let calling_code = take_str(fields, "callingCode")?;
    let isp = take_str(fields, "isp")?;
    let org = take_str(fields, "org")?;
    let as_ = take_str(fields, "as")?;
    let asname = take_str(fields, "asname")?;
    let reverse = take_str(fields, "reverse")?;
    let mobile = take_bool(fields, "mobile")?;
    let proxy = take_bool(fields, "proxy")?;
    let hosting = take_bool(fields, "hosting")?;
    Some(
        JsonResponseBodySuccessJson {
            query,
            continent,
            continent_code,
            country,
            country_code,
            country_code3,
            region,
            region_name,
            city,
            district,
            zip,
            lat,
            lon,
            timezone,
            offset,
            current_time,
            currency,
            calling_code,
            isp,
            org,
            as_,
            asname,
            reverse,
            mobile,
            proxy,
            hosting,
        },
    )
}

/// Reads the failure shape out of a JSON object's members.
fn parse_fail(fields: &Vec<(String, JsonVal)>) -> (r: Option<JsonResponseBodyFailJson>)
    ensures
        (r matches Some(x) ==> fail_of(fields@) == Some(x@)),
        (r is None ==> fail_of(fields@) is None),
{
    let message = match get_field(fields, "message") {
        Some(JsonVal::Str(m)) => m.clone(),
        _ => {
            return None;
        },
    };
    let query = take_str(fields, "query")?;
    Some(JsonResponseBodyFailJson { query, message })
}

/// Decides which payload a JSON object holds and reads it, per the service's
/// precedence.
pub fn parse_fields(fields: &Vec<(String, JsonVal)>) -> (r: Option<JsonResponseBodyJson>)
    ensures
        (r matches Some(x) ==> discriminate(fields@) == Some(x@)),
        (r is None ==> discriminate(fields@) is None),
{
    match get_field(fields, "status") {
        Some(JsonVal::Str(s)) => {
            if s.as_str().to_owned() == "success".to_owned() {
                match parse_success(fields) {
                    Some(x) => Some(JsonResponseBodyJson::Success(Box::new(x))),
                    None => None,
                }
            } else if s.as_str().to_owned() == "fail".to_owned() {
                match parse_fail(fields) {
                    Some(x) => Some(JsonResponseBodyJson::Fail(x)),
                    None => None,
                }
            } else {
                None
            }
        },
        Some(_) => None,
        None => {
            match get_field(fields, "message") {
                Some(_) => match parse_fail(fields) {
                    Some(x) => Some(JsonResponseBodyJson::Fail(x)),
                    None => None,
                },
                None => match parse_success(fields) {
                    Some(x) => Some(JsonResponseBodyJson::Success(Box::new(x))),
                    None => None,
                },
            }
        },
    }
}

/// With `status` present as the string `success`, a parsed object is exactly
/// the success result its members describe, and parsing succeeds exactly
/// where the success shape fits.
pub proof fn lemma_status_success_yields_success(fields: Seq<(String, JsonVal)>)
    requires
        lookup_field(fields, "status"@) matches Some(JsonVal::Str(s)) && s@ == "success"@,
    ensures
        discriminate(fields) is Some <==> success_of(fields) is Some,
        discriminate(fields) matches Some(r) ==> r == ResponseV::Success(
            success_of(fields).unwrap(),
        ),
{
}

/// With `status` present as the string `fail`, a parsed object is exactly
/// the failure result its members describe, and parsing succeeds exactly
/// where the failure shape fits.
pub proof fn lemma_status_fail_yields_fail(fields: Seq<(String, JsonVal)>)
    requires
        lookup_field(fields, "status"@) matches Some(JsonVal::Str(s)) && s@ == "fail"@,
    ensures
        discriminate(fields) is Some <==> fail_of(fields) is Some,
        discriminate(fields) matches Some(r) ==> r == ResponseV::Fail(fail_of(fields).unwrap()),
{
    reveal_strlit("success");
    reveal_strlit("fail");
    assert("success"@.len() == 7);
    assert("fail"@.len() == 4);
}

/// With `status` present as a string that is neither `success` nor `fail`,
/// or as anything but a string, parsing fails.
pub proof fn lemma_status_unrecognized_fails(fields: Seq<(String, JsonVal)>)
    requires
        lookup_field(fields, "status"@) matches Some(v) && (v matches JsonVal::Str(s) ==> s@
            != "success"@ && s@ != "fail"@),
    ensures
        discriminate(fields) is None,
{
}

/// With no `status` member but a `message` member of any kind, a parsed
/// object is exactly the failure result its members describe.
pub proof fn lemma_message_without_status_yields_fail(fields: Seq<(String, JsonVal)>)
    requires
        lookup_field(fields, "status"@) is None,
        lookup_field(fields, "message"@) is Some,
    ensures
        discriminate(fields) is Some <==> fail_of(fields) is Some,
        discriminate(fields) matches Some(r) ==> r == ResponseV::Fail(fail_of(fields).unwrap()),
{
}

/// With neither a `status` nor a `message` member, a parsed object is
/// exactly the success result its members describe.
pub proof fn lemma_no_status_no_message_yields_success(fields: Seq<(String, JsonVal)>)
    requires
        lookup_field(fields, "status"@) is None,
        lookup_field(fields, "message"@) is None,
    ensures
        discriminate(fields) is Some <==> success_of(fields) is Some,
        discriminate(fields) matches Some(r) ==> r == ResponseV::Success(
            success_of(fields).unwrap(),
        ),
{
}

/// Every member a success response omits keeps its default value: the empty
/// string, zero, or `false`.
pub proof fn lemma_success_absent_members_default(fields: Seq<(String, JsonVal)>)
    requires
        success_of(fields) is Some,
    ensures
        lookup_field(fields, "query"@) is None ==> success_of(fields).unwrap().query
            == Seq::<char>::empty(),
        lookup_field(fields, "continent"@) is None ==> success_of(fields).unwrap().continent
            == Seq::<char>::empty(),
        lookup_field(fields, "continentCode"@) is None ==> success_of(
            fields,
        ).unwrap().continent_code == Seq::<char>::empty(),
        lookup_field(fields, "country"@) is None ==> success_of(fields).unwrap().country
            == Seq::<char>::empty(),
        lookup_field(fields, "countryCode"@) is None ==> success_of(fields).unwrap().country_code
            == Seq::<char>::empty(),
        lookup_field(fields, "countryCode3"@) is None ==> success_of(fields).unwrap().country_code3
            == Seq::<char>::empty(),
        lookup_field(fields, "region"@) is None ==> success_of(fields).unwrap().region
            == Seq::<char>::empty(),
        lookup_field(fields, "regionName"@) is None ==> success_of(fields).unwrap().region_name
            == Seq::<char>::empty(),
        lookup_field(fields, "city"@) is None ==> success_of(fields).unwrap().city
            == Seq::<char>::empty(),
        lookup_field(fields, "district"@) is None ==> success_of(fields).unwrap().district
            == Seq::<char>::empty(),
        lookup_field(fields, "zip"@) is None ==> success_of(fields).unwrap().zip
            == Seq::<char>::empty(),
        lookup_field(fields, "lat"@) is None ==> success_of(fields).unwrap().lat
            == JsonNumberV::Int(0),
        lookup_field(fields, "lon"@) is None ==> success_of(fields).unwrap().lon
            == JsonNumberV::Int(0),
        lookup_field(fields, "timezone"@) is None ==> success_of(fields).unwrap().timezone
            == Seq::<char>::empty(),
        lookup_field(fields, "offset"@) is None ==> success_of(fields).unwrap().offset == 0,
        lookup_field(fields, "currentTime"@) is None ==> success_of(fields).unwrap().current_time
            == Seq::<char>::empty(),
        lookup_field(fields, "currency"@) is None ==> success_of(fields).unwrap().currency
            == Seq::<char>::empty(),
        lookup_field(fields, "callingCode"@) is None ==> success_of(fields).unwrap().calling_code
            == Seq::<char>::empty(),
        lookup_field(fields, "isp"@) is None ==> success_of(fields).unwrap().isp
            == Seq::<char>::empty(),
        lookup_field(fields, "org"@) is None ==> success_of(fields).unwrap().org
            == Seq::<char>::empty(),
        lookup_field(fields, "as"@) is None ==> success_of(fields).unwrap().as_
            == Seq::<char>::empty(),
        lookup_field(fields, "asname"@) is None ==> success_of(fields).unwrap().asname
            == Seq::<char>::empty(),
        lookup_field(fields, "reverse"@) is None ==> success_of(fields).unwrap().reverse
            == Seq::<char>::empty(),
        lookup_field(fields, "mobile"@) is None ==> !success_of(fields).unwrap().mobile,
        lookup_field(fields, "proxy"@) is None ==> !success_of(fields).unwrap().proxy,
        lookup_field(fields, "hosting"@) is None ==> !success_of(fields).unwrap().hosting,
{
}

/// What `serde_json` makes of response body bytes read as one JSON object:
/// `None` where the bytes are not a JSON object, otherwise the top-level
/// members in the parser's order, each value reduced to its scalar summary.
/// The outcome depends on the bytes alone.
pub uninterp spec fn json_object_fields(bytes: Seq<u8>) -> Option<Seq<(String, JsonVal)>>;

/// Relies on `serde_json::from_slice` reading one JSON object, on
/// `serde_json::Number::as_i64` to tell integers that fit a signed 64-bit
/// value from other numbers, and on `serde_json::Number`'s decimal rendering
/// for the rest.
#[verifier::external_body]
fn parse_object_fields(bytes: &Vec<u8>) -> (r: Option<Vec<(String, JsonVal)>>)
    ensures
        (r matches Some(v) ==> json_object_fields(bytes@) == Some(v@)),
        (r is None ==> json_object_fields(bytes@) is None),
{
    let m: serde_json::Map<String, serde_json::Value> = match serde_json::from_slice(bytes) {
        Ok(m) => m,
        Err(_) => return None,
    };
    Some(m.into_iter().map(|(k, v)| (k, match v {
        serde_json::Value::Null => JsonVal::Null,
        serde_json::Value::Bool(b) => JsonVal::Bool(b),
        serde_json::Value::String(s) => JsonVal::Str(s),
        serde_json::Value::Number(n) => match n.as_i64() {
            Some(i) => JsonVal::Int(i),
            None => JsonVal::Num(n.to_string()),
        },
        _ => JsonVal::Composite,
    })).collect())
}

/// What `serde_json` makes of response body bytes read as one JSON array:
/// `None` where the bytes are not a JSON array, otherwise the text of each
/// element in order. The outcome depends on the bytes alone.
pub uninterp spec fn json_array_elems(bytes: Seq<u8>) -> Option<Seq<Seq<u8>>>;

/// Relies on `serde_json::from_slice` reading one JSON array of raw elements
/// and on `serde_json::value::RawValue::get` for each element's own text.
#[verifier::external_body]
pub(crate) fn parse_array_elems(bytes: &Vec<u8>) -> (r: Option<Vec<Vec<u8>>>)
    ensures
        (r matches Some(v) ==> json_array_elems(bytes@) matches Some(elems) && elems.len()
            == v@.len() && (forall|i: int| 0 <= i < v@.len() ==> elems[i] == v@[i]@)),
        (r is None ==> json_array_elems(bytes@) is None),
{
    let v: Vec<Box<serde_json::value::RawValue>> = match serde_json::from_slice(bytes) {
        Ok(v) => v,
        Err(_) => return None,
    };
    Some(v.into_iter().map(|rv| rv.get().as_bytes().to_vec()).collect())
}

/// The payload one response object's bytes describe: `None` where the bytes
/// are not a JSON object or the object fits no shape.
pub open spec fn response_of_bytes(bytes: Seq<u8>) -> Option<ResponseV> {
    match json_object_fields(bytes) {
        Some(fields) => discriminate(fields),
        None => None,
    }
}

/// Parses one response object from its bytes.
pub fn parse_response_bytes(bytes: &Vec<u8>) -> (r: Option<JsonResponseBodyJson>)
    ensures
        (r matches Some(x) ==> response_of_bytes(bytes@) == Some(x@)),
        (r is None ==> response_of_bytes(bytes@) is None),
{
    let fields = parse_object_fields(bytes)?;
    parse_fields(&fields)
}

} // verus!
