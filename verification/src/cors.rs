//! The headers that let a page of another origin call the service.

use vstd::prelude::*;
use vstd::string::StringExecFns;

verus! {

/// The rule by which responses get their cross-origin headers.
#[derive(Debug)]
pub struct CORS();

/// One header of a response.
#[derive(Debug)]
pub struct ResponseHeader {
    pub name: String,
    pub value: String,
}

impl View for ResponseHeader {
    type V = (Seq<char>, Seq<char>);

    open spec fn view(&self) -> (Seq<char>, Seq<char>) {
        (self.name@, self.value@)
    }
}

/// What the rule adds to a response.
#[derive(Debug)]
pub struct CorsDecision {
    /// The headers to set.
    pub headers: Vec<ResponseHeader>,
    /// Whether the response is to be sent as plain text with an empty body.
    pub empty_plain_body: bool,
}

/// The four headers that open the service to every origin.
pub open spec fn cross_origin_headers() -> Seq<(Seq<char>, Seq<char>)> {
    seq![
        ("Access-Control-Allow-Origin"@, "*"@),
        ("Access-Control-Allow-Methods"@, "POST, GET, OPTIONS"@),
        ("Access-Control-Allow-Headers"@, "Content-Type, Authorization"@),
        ("Access-Control-Allow-Credentials"@, "true"@),
    ]
}

/// The headers that the rule sets on the response to a request: the four
/// cross-origin headers where the request is a preflight (`OPTIONS`) or the
/// response carries JSON, none otherwise.
pub open spec fn headers_for(is_options: bool, is_json: bool) -> Seq<(Seq<char>, Seq<char>)> {
    if is_options || is_json {
        cross_origin_headers()
    } else {
        Seq::empty()
    }
}

fn header(name: &str, value: &str) -> (header: ResponseHeader)
    ensures
        header@ == (name@, value@),
{
    ResponseHeader { name: String::from_str(name), value: String::from_str(value) }
}

impl CORS {
    /// The name under which the rule is registered.
    pub fn info(&self) -> (name: String)
        ensures
            name@ == "Add CORS headers to requests"@,
    {
        String::from_str("Add CORS headers to requests")
    }

    /// Decides what is added to the response to a request, given whether the
    /// request is a preflight and whether the response carries JSON. A
    /// preflight is answered as plain text with an empty body.
    pub fn on_response(&self, is_options: bool, is_json: bool) -> (decision: CorsDecision)
        ensures
            crate::rows::views(decision.headers@) == headers_for(is_options, is_json),
            decision.empty_plain_body == is_options,
    {
        let mut headers: Vec<ResponseHeader> = Vec::new();
        if is_options || is_json {
            headers.push(header("Access-Control-Allow-Origin", "*"));
            headers.push(header("Access-Control-Allow-Methods", "POST, GET, OPTIONS"));
            headers.push(header("Access-Control-Allow-Headers", "Content-Type, Authorization"));
            headers.push(header("Access-Control-Allow-Credentials", "true"));
        }
        assert(crate::rows::views(headers@) =~= headers_for(is_options, is_json));
        CorsDecision { headers, empty_plain_body: is_options }
    }
}

} // verus!
