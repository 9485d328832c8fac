//! HTTP requests as plain values, and the rules by which a client judges the
//! status line of a response before it reads the body.

use vstd::prelude::*;
use crate::json::{items_json, members_json, Json, JsonMember, JsonValue};

verus! {

/// The HTTP methods that the clients use.
#[derive(Clone, Copy, Debug, PartialEq, Eq, Structural)]
pub enum HttpMethod {
    Get,
    Post,
    Put,
    Patch,
    Delete,
}

/// A request ready to be sent: method, absolute URL, headers in order and
/// an optional JSON body.
#[derive(Debug, PartialEq)]
pub struct HttpRequest {
    pub method: HttpMethod,
    pub url: String,
    pub headers: Vec<(String, String)>,
    pub body: Option<JsonValue>,
}

pub struct HttpRequestView {
    pub method: HttpMethod,
    pub url: Seq<char>,
    pub headers: Seq<(Seq<char>, Seq<char>)>,
    pub body: Option<Json>,
}

pub open spec fn headers_view(h: Seq<(String, String)>) -> Seq<(Seq<char>, Seq<char>)> {
    h.map_values(|e: (String, String)| (e.0@, e.1@))
}

pub open spec fn json_option_view(b: Option<JsonValue>) -> Option<Json> {
    match b {
        Some(j) => Some(j@),
        None => None,
    }
}

impl View for HttpRequest {
    type V = HttpRequestView;

    open spec fn view(&self) -> HttpRequestView {
        HttpRequestView {
            method: self.method,
            url: self.url@,
            headers: headers_view(self.headers@),
            body: json_option_view(self.body),
        }
    }
}

/// How a call reads the status of its response.
#[derive(Clone, Debug, PartialEq)]
pub enum StatusPolicy {
    /// Every status goes on to decode the body.
    AcceptAny,
    /// 404 means that the named thing is not there.
    NotFoundOn404(String),
    /// 401 means unauthorized; 404 means that the named thing is not there.
    UnauthorizedOrNotFound(String),
    /// A status outside 2xx rejects the call; the body then explains why.
    RequireSuccess,
}

pub enum StatusPolicyView {
    AcceptAny,
    NotFoundOn404(Seq<char>),
    UnauthorizedOrNotFound(Seq<char>),
    RequireSuccess,
}

impl View for StatusPolicy {
    type V = StatusPolicyView;

    open spec fn view(&self) -> StatusPolicyView {
        match self {
            StatusPolicy::AcceptAny => StatusPolicyView::AcceptAny,
            StatusPolicy::NotFoundOn404(s) => StatusPolicyView::NotFoundOn404(s@),
            StatusPolicy::UnauthorizedOrNotFound(s) => StatusPolicyView::UnauthorizedOrNotFound(s@),
            StatusPolicy::RequireSuccess => StatusPolicyView::RequireSuccess,
        }
    }
}

/// A request together with the rule for its response.
#[derive(Debug, PartialEq)]
pub struct ApiCall {
    pub request: HttpRequest,
    pub policy: StatusPolicy,
}

pub struct ApiCallView {
    pub request: HttpRequestView,
    pub policy: StatusPolicyView,
}

impl View for ApiCall {
    type V = ApiCallView;

    open spec fn view(&self) -> ApiCallView {
        ApiCallView { request: self.request@, policy: self.policy@ }
    }
}

/// What to do once the status of a response is known.
#[derive(Clone, Debug, PartialEq)]
pub enum Verdict {
    /// Go on and decode the body as the result.
    Decode,
    /// The server refused the credentials.
    Unauthorized,
    /// The named thing does not exist.
    NotFound(String),
    /// The server rejected the call; its body says why.
    Rejected,
}

pub enum VerdictView {
    Decode,
    Unauthorized,
    NotFound(Seq<char>),
    Rejected,
}

impl View for Verdict {
    type V = VerdictView;

    open spec fn view(&self) -> VerdictView {
        match self {
            Verdict::Decode => VerdictView::Decode,
            Verdict::Unauthorized => VerdictView::Unauthorized,
            Verdict::NotFound(s) => VerdictView::NotFound(s@),
            Verdict::Rejected => VerdictView::Rejected,
        }
    }
}

/// A 2xx status (`StatusCode::is_success`).
pub open spec fn is_success_status(status: u16) -> bool {
    200 <= status <= 299
}

/// The verdict that `policy` gives on `status`.
pub open spec fn judge_spec(policy: StatusPolicyView, status: u16) -> VerdictView {
    match policy {
        StatusPolicyView::AcceptAny => VerdictView::Decode,
        StatusPolicyView::NotFoundOn404(what) => if status == 404 {
            VerdictView::NotFound(what)
        } else {
            VerdictView::Decode
        },
        StatusPolicyView::UnauthorizedOrNotFound(what) => if status == 401 {
            VerdictView::Unauthorized
        } else if status == 404 {
            VerdictView::NotFound(what)
        } else {
            VerdictView::Decode
        },
        StatusPolicyView::RequireSuccess => if is_success_status(status) {
            VerdictView::Decode
        } else {
            VerdictView::Rejected
        },
    }
}

/// A call that requires success goes on exactly on the 2xx statuses, from
/// 200 to 299 both included, and is rejected on every other status.
pub proof fn law_require_success_accepts_2xx(status: u16)
    ensures
        200 <= status <= 299 ==> judge_spec(StatusPolicyView::RequireSuccess, status)
            == VerdictView::Decode,
        (status < 200 || status > 299) ==> judge_spec(StatusPolicyView::RequireSuccess, status)
            == VerdictView::Rejected,
{
}

/// The other policies never reject: a read goes on unless the status is
/// 401 or 404, which it names.
pub proof fn law_reads_never_reject(what: Seq<char>, status: u16)
    ensures
        judge_spec(StatusPolicyView::AcceptAny, status) == VerdictView::Decode,
        status != 404 ==> judge_spec(StatusPolicyView::NotFoundOn404(what), status)
            == VerdictView::Decode,
        status != 401 && status != 404 ==> judge_spec(StatusPolicyView::UnauthorizedOrNotFound(what), status)
            == VerdictView::Decode,
{
}

/// Whether `status` is a 2xx status.
pub fn is_success(status: u16) -> (b: bool)
    ensures
        b == is_success_status(status),
        b <==> 200 <= status && status <= 299,
{
    200 <= status && status <= 299
}

/// Judges the status of a response by the call's policy.
pub fn judge(policy: &StatusPolicy, status: u16) -> (v: Verdict)
    ensures
        v@ == judge_spec(policy@, status),
{
    match policy {
        StatusPolicy::AcceptAny => Verdict::Decode,
        StatusPolicy::NotFoundOn404(what) => if status == 404 {
            Verdict::NotFound(what.clone())
        } else {
            Verdict::Decode
        },
        StatusPolicy::UnauthorizedOrNotFound(what) => if status == 401 {
            Verdict::Unauthorized
        } else if status == 404 {
            Verdict::NotFound(what.clone())
        } else {
            Verdict::Decode
        },
        StatusPolicy::RequireSuccess => if is_success(status) {
            Verdict::Decode
        } else {
            Verdict::Rejected
        },
    }
}

/// A header line.
pub fn header(name: &str, value: String) -> (h: (String, String))
    ensures
        h.0@ == name@,
        h.1@ == value@,
{
    (String::from_str(name), value)
}

/// A string value.
pub fn json_str(s: String) -> (j: JsonValue)
    ensures
        j@ == Json::Str(s@),
{
    JsonValue::Str(s)
}

/// An object with the given entries, in order.
pub fn json_object(members: Vec<JsonMember>) -> (j: JsonValue)
    ensures
        j@ == Json::Object(members_json(members@)),
{
    JsonValue::Object(members)
}

/// An array with the given items, in order.
pub fn json_array(items: Vec<JsonValue>) -> (j: JsonValue)
    ensures
        j@ == Json::Array(items_json(items@)),
{
    JsonValue::Array(items)
}

/// One entry of an object.
pub fn entry(key: &str, value: JsonValue) -> (e: JsonMember)
    ensures
        e.key@ == key@,
        e.value == value,
{
    JsonMember { key: String::from_str(key), value }
}

} // verus!
