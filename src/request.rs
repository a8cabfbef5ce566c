use vstd::prelude::*;

use chrono::TimeZone;

use crate::models::{EnergyType, RequestType};
use crate::window::DateWindow;

verus! {

/// Base address of the provider's consumer API.
pub const N3RGY_BASE_URL: &'static str = "https://consumer-api.data.n3rgy.com/";

/// The address of one request, before its query parameters are encoded.
pub struct RequestUrl {
    /// Base address followed by the resource and request segments.
    pub path: String,
    /// Query parameters, in order, as name and value.
    pub params: Vec<(String, String)>,
}

/// The path segment that selects the resource.
pub open spec fn energy_segment(e: EnergyType) -> Seq<char> {
    match e {
        EnergyType::Electricity => "electricity/"@,
        EnergyType::Gas => "gas/"@,
    }
}

/// The path segment that selects the kind of data.
pub open spec fn request_segment(r: RequestType) -> Seq<char> {
    match r {
        RequestType::Consumption => "consumption/1"@,
        RequestType::Tariff => "tariff/1"@,
    }
}

/// The mathematical form of a list of query parameters.
pub open spec fn params_view(p: Seq<(String, String)>) -> Seq<(Seq<char>, Seq<char>)> {
    p.map_values(|x: (String, String)| (x.0@, x.1@))
}

/// The text of the absolute URL `path` with `params` appended, in order, to its query
/// string; `None` where `path` is not an absolute URL.
pub uninterp spec fn encoded_url(path: Seq<char>, params: Seq<(Seq<char>, Seq<char>)>) -> Option<
    Seq<char>,
>;

/// Relies on `reqwest::Url::parse_with_params` (the url crate's `Url`): it parses
/// `path` as an absolute URL, fails only where that parse fails, and appends the
/// parameters, encoded and in order, to the query string. Its result depends on its
/// arguments alone.
#[verifier::external_body]
fn parse_with_params(path: &str, params: &Vec<(String, String)>) -> (r: Option<String>)
    ensures
        match encoded_url(path@, params_view(params@)) {
            Some(u) => r matches Some(t) && t@ == u,
            None => r is None,
        },
{
    match reqwest::Url::parse_with_params(path, params.iter()) {
        Ok(u) => Some(u.as_str().to_string()),
        Err(_) => None,
    }
}

impl RequestUrl {
    /// The full text of the address, with the query parameters encoded; `None` where
    /// the path is not an absolute URL.
    pub fn to_url(&self) -> (r: Option<String>)
        ensures
            match encoded_url(self.path@, params_view(self.params@)) {
                Some(u) => r matches Some(t) && t@ == u,
                None => r is None,
            },
    {
        parse_with_params(self.path.as_str(), &self.params)
    }
}

/// The address of a request for `request_type` data of `energy_type` between the
/// compact timestamps `start` and `end`, answered in format `output`.
pub fn build_request_url(
    base: &str,
    start: String,
    end: String,
    output: String,
    energy_type: EnergyType,
    request_type: RequestType,
) -> (r: RequestUrl)
    ensures
        r.path@ == base@ + energy_segment(energy_type) + request_segment(request_type),
        params_view(r.params@) == seq![
            ("start"@, start@),
            ("end"@, end@),
            ("output"@, output@),
        ],
{
    let mut path = base.to_owned();
    match energy_type {
        EnergyType::Electricity => path.append("electricity/"),
        EnergyType::Gas => path.append("gas/"),
    }
    match request_type {
        RequestType::Consumption => path.append("consumption/1"),
        RequestType::Tariff => path.append("tariff/1"),
    }
    let ghost sv = start@;
    let ghost ev = end@;
    let ghost ov = output@;
    let mut params: Vec<(String, String)> = Vec::new();
    params.push(("start".to_owned(), start));
    params.push(("end".to_owned(), end));
    params.push(("output".to_owned(), output));
    assert(params_view(params@) =~= seq![("start"@, sv), ("end"@, ev), ("output"@, ov)]);
    RequestUrl { path, params }
}

} // verus!

verus! {

/// Relies on chrono's `Local.timestamp_opt(secs, 0)` and `format("%Y%m%d%H%M")`: the
/// provider's compact form of the instant in the machine's time zone, `None` where
/// chrono cannot represent the instant. The text depends on the machine's time zone.
#[verifier::external_body]
fn local_compact_timestamp(secs: i64) -> (r: Option<String>) {
    match chrono::Local.timestamp_opt(secs, 0).single() {
        Some(t) => Some(t.format("%Y%m%d%H%M").to_string()),
        None => None,
    }
}

/// The address of the request for one window: its bounds in the provider's compact
/// local form, and the structured output format; `None` where a bound cannot be
/// written in local time.
pub fn window_request_url(
    base: &str,
    window: DateWindow,
    energy_type: EnergyType,
    request_type: RequestType,
) -> (r: Option<RequestUrl>)
    ensures
        r matches Some(u) ==> {
            &&& u.path@ == base@ + energy_segment(energy_type) + request_segment(request_type)
            &&& u.params@.len() == 3
            &&& u.params@[0].0@ == "start"@
            &&& u.params@[1].0@ == "end"@
            &&& u.params@[2].0@ == "output"@
            &&& u.params@[2].1@ == "JSON"@
        },
{
    let start = match local_compact_timestamp(window.start) {
        Some(s) => s,
        None => return None,
    };
    let end = match local_compact_timestamp(window.end) {
        Some(e) => e,
        None => return None,
    };
    let r = build_request_url(base, start, end, "JSON".to_owned(), energy_type, request_type);
    assert(params_view(r.params@).len() == 3);
    assert(r.params@.len() == 3);
    assert(params_view(r.params@)[0] == (r.params@[0].0@, r.params@[0].1@));
    assert(params_view(r.params@)[1] == (r.params@[1].0@, r.params@[1].1@));
    assert(params_view(r.params@)[2] == (r.params@[2].0@, r.params@[2].1@));
    Some(r)
}

} // verus!
