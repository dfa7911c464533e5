use crate::errors::ApiError;
use crate::headers::HeaderMap;
use crate::method::Method;
use crate::method::method_of;
use vstd::prelude::*;

verus! {

/// A fully decided outbound request, ready for a transport to send: every
/// policy choice (method recognition, payload attachment, content type) has
/// already been made here.
#[derive(Debug)]
pub struct RequestPlan {
    /// The recognized verb.
    pub method: Method,
    /// The target URL, passed through to the transport without validation.
    pub url: String,
    /// The headers to apply, exactly as the caller supplied them.
    pub headers: HeaderMap,
    /// The payload to attach, if any. `Some` also means the request is
    /// marked `application/json`; `None` means no payload and no forced
    /// content type.
    pub payload: Option<String>,
}

/// The header mapping the caller supplied, or the empty mapping.
pub open spec fn spec_given_headers(headers: Option<HeaderMap>) -> Map<Seq<char>, Seq<char>> {
    match headers {
        Some(h) => h.as_map(),
        None => Map::empty(),
    }
}

/// The payload a body argument turns into: an absent or empty-string body
/// attaches nothing, a non-empty body is attached as given.
pub open spec fn spec_payload(body: Option<String>) -> Option<String> {
    match body {
        Some(b) => if b@.len() == 0 {
            None
        } else {
            Some(b)
        },
        None => None,
    }
}

impl RequestPlan {
    /// The content type the plan forces on the outbound request, if any.
    pub open spec fn spec_content_type(&self) -> Option<Seq<char>> {
        if self.payload is Some {
            Some("application/json"@)
        } else {
            None
        }
    }

    /// The content type to set on the outbound request: `application/json`
    /// exactly when a payload is attached, nothing otherwise.
    pub fn content_type(&self) -> (r: Option<&'static str>)
        ensures
            r is Some <==> self.spec_content_type() is Some,
            r matches Some(c) ==> Some(c@) == self.spec_content_type(),
    {
        match &self.payload {
            Some(_) => Some("application/json"),
            None => None,
        }
    }
}

/// When a payload is attached, the forced content type is `application/json`
/// whatever headers the caller supplied: the policy reads nothing but the
/// payload, so no caller-supplied content-type value changes it.
pub proof fn lemma_json_content_type_policy(p: RequestPlan, q: RequestPlan)
    requires
        p.payload is Some,
        q.payload == p.payload,
    ensures
        p.spec_content_type() == Some("application/json"@),
        q.spec_content_type() == p.spec_content_type(),
{
}

/// Decide an outbound request. Fails with `UnsupportedMethod`, before any
/// I/O could happen, exactly when the method string is not one of the five
/// recognized verbs; otherwise every input is passed through as given, with
/// an absent or empty body attaching no payload and a non-empty body
/// attached verbatim and marked `application/json`.
pub fn plan_request(
    method: &str,
    url: String,
    headers: Option<HeaderMap>,
    body: Option<String>,
) -> (r: Result<RequestPlan, ApiError>)
    requires
        headers matches Some(h) ==> h.wf(),
    ensures
        r is Err <==> method_of(method@) is None,
        r is Err ==> r == Err::<RequestPlan, ApiError>(ApiError::UnsupportedMethod),
        r matches Ok(p) ==> Some(p.method) == method_of(method@) && p.url == url
            && p.headers.wf() && p.headers.as_map() == spec_given_headers(headers)
            && p.payload == spec_payload(body),
{
    let m = match Method::parse(method) {
        Some(m) => m,
        None => {
            return Err(ApiError::UnsupportedMethod);
        },
    };
    let header_map = match headers {
        Some(h) => h,
        None => HeaderMap::new(),
    };
    let payload = match body {
        Some(b) => if b.as_str().is_empty() {
            None
        } else {
            Some(b)
        },
        None => None,
    };
    Ok(RequestPlan { method: m, url, headers: header_map, payload })
}

/// A normalized response record, as handed back to the host: status code,
/// body text, one value per header name, and the elapsed wall-clock
/// duration in whole milliseconds.
#[derive(Debug)]
pub struct ApiResponse {
    /// The numeric status code.
    pub status: u16,
    /// The full response body as text; empty when the body was not valid
    /// text.
    pub body: String,
    /// The response headers, last value winning for a repeated name.
    pub headers: HeaderMap,
    /// Elapsed wall-clock time in whole milliseconds, measured through full
    /// body materialization.
    pub duration: u128,
}

/// The text a raw transport string turns into: the string itself, or empty
/// when the transport could not produce valid text.
pub open spec fn spec_text_or_empty(v: Option<String>) -> Seq<char> {
    match v {
        Some(s) => s@,
        None => Seq::empty(),
    }
}

/// The mapping that a transport's raw header list collapses into: pairs read
/// in order, the last value winning for a repeated name, an unreadable value
/// recorded as the empty string.
pub open spec fn spec_folded_headers(s: Seq<(String, Option<String>)>) -> Map<Seq<char>, Seq<char>>
    decreases s.len(),
{
    if s.len() == 0 {
        Map::empty()
    } else {
        spec_folded_headers(s.drop_last()).insert(
            s.last().0@,
            spec_text_or_empty(s.last().1),
        )
    }
}

/// Fold a transport's raw answer into the normalized response record: the
/// status and duration pass through unchanged, a body that was not valid
/// text becomes the empty string, and the raw header pairs collapse to one
/// value per name with the last value winning.
pub fn collect_response(
    status: u16,
    raw_headers: Vec<(String, Option<String>)>,
    body: Option<String>,
    duration: u128,
) -> (r: ApiResponse)
    ensures
        r.status == status,
        r.duration == duration,
        r.body@ == spec_text_or_empty(body),
        r.headers.wf(),
        r.headers.as_map() == spec_folded_headers(raw_headers@),
{
    let mut headers = HeaderMap::new();
    let n = raw_headers.len();
    let mut i: usize = 0;
    while i < n
        invariant
            n == raw_headers@.len(),
            i <= n,
            headers.wf(),
            headers.as_map() == spec_folded_headers(raw_headers@.take(i as int)),
        decreases n - i,
    {
        let key = raw_headers[i].0.clone();
        let value = match &raw_headers[i].1 {
            Some(s) => s.clone(),
            None => String::new(),
        };
        proof {
            assert(raw_headers@.take(i + 1 as int).drop_last() =~= raw_headers@.take(i as int));
            assert(raw_headers@.take(i + 1 as int).last() == raw_headers@[i as int]);
        }
        headers.insert(key, value);
        i += 1;
    }
    proof {
        assert(raw_headers@.take(n as int) =~= raw_headers@);
    }
    let body_text = match body {
        Some(s) => s,
        None => String::new(),
    };
    ApiResponse { status, body: body_text, headers, duration }
}

} // verus!
