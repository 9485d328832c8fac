//! The GitHub REST client: each operation as the request it sends and the
//! rule by which it reads the response, and the decoding of file contents.

use vstd::prelude::*;
use vstd::utf8::{decode_utf8, encode_utf8, valid_utf8};
use crate::codec::{
    base64_decode_result, base64_encode, base64_standard_decode,
    string_from_utf8, utf8_error_text,
};
use crate::http::{
    entry, header, headers_view, json_array, json_object, json_str, ApiCall, ApiCallView,
    HttpMethod, HttpRequest, HttpRequestView, StatusPolicy, StatusPolicyView, Verdict, VerdictView,
};
use crate::json::{field, field_spec, items_json, lemma_members_json, members_json, Json, JsonMember, JsonValue};
use crate::text::{decimal, join, join_strings, remove_char, strings_view, without_char, write_decimal};

verus! {

/// Errors of the GitHub client.
#[derive(Clone, Debug, PartialEq)]
pub enum GitHubError {
    AuthError(String),
    ApiError(String),
    NotFound(String),
    InvalidPayload(String),
}

pub enum GitHubErrorView {
    AuthError(Seq<char>),
    ApiError(Seq<char>),
    NotFound(Seq<char>),
    InvalidPayload(Seq<char>),
}

impl View for GitHubError {
    type V = GitHubErrorView;

    open spec fn view(&self) -> GitHubErrorView {
        match self {
            GitHubError::AuthError(s) => GitHubErrorView::AuthError(s@),
            GitHubError::ApiError(s) => GitHubErrorView::ApiError(s@),
            GitHubError::NotFound(s) => GitHubErrorView::NotFound(s@),
            GitHubError::InvalidPayload(s) => GitHubErrorView::InvalidPayload(s@),
        }
    }
}

impl GitHubError {
    /// What a client answers for the verdict on a response, given the text
    /// of the response's body for a rejection: nothing when the body is to be
    /// decoded; an authentication error `Unauthorized`; a not-found error for
    /// what was asked for; or an API error with the body's text.
    pub fn from_verdict(verdict: Verdict, rejection: String) -> (r: Option<GitHubError>)
        ensures
            (match verdict@ {
                VerdictView::Decode => r is None,
                VerdictView::Unauthorized => r matches Some(GitHubError::AuthError(m)) && m@ == "Unauthorized"@,
                VerdictView::NotFound(what) => r matches Some(GitHubError::NotFound(m)) && m@ == what,
                VerdictView::Rejected => r matches Some(GitHubError::ApiError(m)) && m@ == rejection@,
            }),
    {
        match verdict {
            Verdict::Decode => None,
            Verdict::Unauthorized => Some(GitHubError::AuthError(String::from_str("Unauthorized"))),
            Verdict::NotFound(what) => Some(GitHubError::NotFound(what)),
            Verdict::Rejected => Some(GitHubError::ApiError(rejection)),
        }
    }
}

impl GitHubError {
    pub open spec fn message_spec(self) -> Seq<char> {
        match self {
            GitHubError::AuthError(s) => "Authentication error: "@ + s@,
            GitHubError::ApiError(s) => "API error: "@ + s@,
            GitHubError::NotFound(s) => "Not found: "@ + s@,
            GitHubError::InvalidPayload(s) => "Invalid payload: "@ + s@,
        }
    }

    /// The human-readable message of the error.
    pub fn message(&self) -> (m: String)
        ensures
            m@ == self.message_spec(),
    {
        let (prefix, detail) = match self {
            GitHubError::AuthError(s) => ("Authentication error: ", s),
            GitHubError::ApiError(s) => ("API error: ", s),
            GitHubError::NotFound(s) => ("Not found: ", s),
            GitHubError::InvalidPayload(s) => ("Invalid payload: ", s),
        };
        let mut m = String::from_str(prefix);
        m.append(detail.as_str());
        m
    }
}

/// The headers that every GitHub request carries.
pub open spec fn github_headers(token: Seq<char>) -> Seq<(Seq<char>, Seq<char>)> {
    seq![
        ("Authorization"@, "Bearer "@ + token),
        ("User-Agent"@, "deva-github"@),
        ("Accept"@, "application/vnd.github+json"@),
    ]
}

pub open spec fn opt_str(o: Option<&str>) -> Option<Seq<char>> {
    match o {
        Some(s) => Some(s@),
        None => None,
    }
}

/// `"?" + join(params, sep)` when there are parameters, else nothing.
pub open spec fn query_suffix(params: Seq<Seq<char>>, sep: Seq<char>) -> Seq<char> {
    if params.len() == 0 {
        Seq::empty()
    } else {
        "?"@ + join(params, sep)
    }
}

/// `prefix + v` when the value is present, else nothing.
pub open spec fn param_suffix(prefix: Seq<char>, v: Option<Seq<char>>) -> Seq<char> {
    match v {
        Some(s) => prefix + s,
        None => Seq::empty(),
    }
}

/// Appends `prefix + v` to `url` when `v` is present.
pub(crate) fn append_param(url: &mut String, prefix: &str, v: Option<&str>)
    ensures
        final(url)@ == old(url)@ + param_suffix(prefix@, opt_str(v)),
{
    match v {
        Some(s) => {
            let ghost before = url@;
            url.append(prefix);
            url.append(s);
            assert(url@ =~= before + (prefix@ + s@));
        },
        None => {
            assert(url@ + Seq::<char>::empty() =~= url@);
        },
    }
}

/// An object member holding a string, present only when the value is.
pub open spec fn optional_member(key: Seq<char>, value: Option<Seq<char>>) -> Seq<(Seq<char>, Json)> {
    match value {
        Some(v) => seq![(key, Json::Str(v))],
        None => Seq::empty(),
    }
}

/// The `labels` member of a new issue: an array of the label names.
pub open spec fn labels_member(labels: Option<Vec<&str>>) -> Seq<(Seq<char>, Json)> {
    match labels {
        Some(l) => seq![("labels"@, Json::Array(l@.map_values(|x: &str| Json::Str(x@))))],
        None => Seq::empty(),
    }
}

/// The body that closes a pull request or an issue.
pub open spec fn closed_state_body() -> Json {
    Json::Object(seq![("state"@, Json::Str("closed"@))])
}

/// GitHub API client for one repository.
#[derive(Clone, Debug)]
pub struct GitHubClient {
    pub token: String,
    pub owner: String,
    pub repo: String,
}

impl GitHubClient {
    /// `https://api.github.com/repos/{owner}/{repo}`
    pub open spec fn repo_url(&self) -> Seq<char> {
        "https://api.github.com/repos/"@ + self.owner@ + "/"@ + self.repo@
    }

    pub open spec fn request_spec(&self, method: HttpMethod, url: Seq<char>, body: Option<Json>) -> HttpRequestView {
        HttpRequestView { method, url, headers: github_headers(self.token@), body }
    }

    pub open spec fn call_spec(
        &self,
        method: HttpMethod,
        url: Seq<char>,
        body: Option<Json>,
        policy: StatusPolicyView,
    ) -> ApiCallView {
        ApiCallView { request: self.request_spec(method, url, body), policy }
    }

    /// Creates a client.
    pub fn new(token: String, owner: String, repo: String) -> (c: Self)
        ensures
            c.token == token,
            c.owner == owner,
            c.repo == repo,
    {
        GitHubClient { token, owner, repo }
    }

    /// Creates a client from the values of `GITHUB_TOKEN`, `GITHUB_OWNER`
    /// and `GITHUB_REPO`; the first that is unset is reported.
    pub fn from_env_values(token: Option<String>, owner: Option<String>, repo: Option<String>) -> (r: Result<Self, GitHubError>)
        ensures
            token is None ==> r is Err && r->Err_0@ == GitHubErrorView::AuthError("GITHUB_TOKEN not set"@),
            token is Some && owner is None ==> r is Err && r->Err_0@ == GitHubErrorView::AuthError("GITHUB_OWNER not set"@),
            token is Some && owner is Some && repo is None ==> r is Err && r->Err_0@ == GitHubErrorView::AuthError("GITHUB_REPO not set"@),
            token is Some && owner is Some && repo is Some ==> r is Ok && r->Ok_0.token == token->0 && r->Ok_0.owner == owner->0 && r->Ok_0.repo == repo->0,
    {
        match token {
            None => Err(GitHubError::AuthError(String::from_str("GITHUB_TOKEN not set"))),
            Some(t) => match owner {
                None => Err(GitHubError::AuthError(String::from_str("GITHUB_OWNER not set"))),
                Some(o) => match repo {
                    None => Err(GitHubError::AuthError(String::from_str("GITHUB_REPO not set"))),
                    Some(r) => Ok(Self::new(t, o, r)),
                },
            },
        }
    }

    fn headers(&self) -> (h: Vec<(String, String)>)
        ensures
            headers_view(h@) == github_headers(self.token@),
    {
        let mut auth = String::from_str("Bearer ");
        auth.append(self.token.as_str());
        let h = vec![
            header("Authorization", auth),
            header("User-Agent", String::from_str("deva-github")),
            header("Accept", String::from_str("application/vnd.github+json")),
        ];
        assert(headers_view(h@) =~= github_headers(self.token@));
        h
    }

    /// `repo_url` followed by `tail`.
    fn url(&self, tail: &str) -> (u: String)
        ensures
            u@ == self.repo_url() + tail@,
    {
        let mut u = String::from_str("https://api.github.com/repos/");
        u.append(self.owner.as_str());
        u.append("/");
        u.append(self.repo.as_str());
        u.append(tail);
        u
    }

    fn call(&self, method: HttpMethod, url: String, body: Option<JsonValue>, policy: StatusPolicy) -> (c: ApiCall)
        ensures
            c@ == self.call_spec(method, url@, crate::http::json_option_view(body), policy@),
    {
        ApiCall { request: HttpRequest { method, url, headers: self.headers(), body }, policy }
    }

    /// `{owner}/{repo}`: how a missing repository is named.
    fn repo_label(&self) -> (s: String)
        ensures
            s@ == self.owner@ + "/"@ + self.repo@,
    {
        let mut s = self.owner.clone();
        s.append("/");
        s.append(self.repo.as_str());
        s
    }

    /// Fetches the repository; 404 reports it missing.
    pub fn get_repo_call(&self) -> (c: ApiCall)
        ensures
            c@ == self.call_spec(
                HttpMethod::Get,
                self.repo_url() + "/"@,
                None,
                StatusPolicyView::NotFoundOn404(self.owner@ + "/"@ + self.repo@),
            ),
    {
        self.call(HttpMethod::Get, self.url("/"), None, StatusPolicy::NotFoundOn404(self.repo_label()))
    }

    /// Lists pull requests, optionally by state.
    pub fn list_prs_call(&self, state: Option<&str>) -> (c: ApiCall)
        ensures
            c@ == self.call_spec(
                HttpMethod::Get,
                self.repo_url() + "/pulls"@ + param_suffix("?state="@, opt_str(state)),
                None,
                StatusPolicyView::AcceptAny,
            ),
    {
        let mut url = self.url("/pulls");
        append_param(&mut url, "?state=", state);
        self.call(HttpMethod::Get, url, None, StatusPolicy::AcceptAny)
    }

    /// Fetches one pull request; 404 reports `PR #n` missing.
    pub fn get_pr_call(&self, pr_number: u64) -> (c: ApiCall)
        ensures
            c@ == self.call_spec(
                HttpMethod::Get,
                self.repo_url() + "/pulls/"@ + decimal(pr_number as nat),
                None,
                StatusPolicyView::NotFoundOn404("PR #"@ + decimal(pr_number as nat)),
            ),
    {
        let mut url = self.url("/pulls/");
        write_decimal(&mut url, pr_number);
        let mut label = String::from_str("PR #");
        write_decimal(&mut label, pr_number);
        self.call(HttpMethod::Get, url, None, StatusPolicy::NotFoundOn404(label))
    }
}


impl GitHubClient {
    /// Opens a pull request from `head` into `base`; a non-2xx status
    /// rejects it.
    pub fn create_pr_call(&self, title: &str, head: &str, base: &str, body: Option<&str>) -> (c: ApiCall)
        ensures
            c@ == self.call_spec(
                HttpMethod::Post,
                self.repo_url() + "/pulls"@,
                Some(
                    Json::Object(
                        seq![
                            ("title"@, Json::Str(title@)),
                            ("head"@, Json::Str(head@)),
                            ("base"@, Json::Str(base@)),
                        ] + optional_member("body"@, opt_str(body)),
                    ),
                ),
                StatusPolicyView::RequireSuccess,
            ),
    {
        let mut members: Vec<JsonMember> = vec![
            entry("title", json_str(String::from_str(title))),
            entry("head", json_str(String::from_str(head))),
            entry("base", json_str(String::from_str(base))),
        ];
        match body {
            Some(b) => members.push(entry("body", json_str(String::from_str(b)))),
            None => {},
        }
        proof {
            lemma_members_json(members@);
            assert(members_json(members@) =~= seq![
                ("title"@, Json::Str(title@)),
                ("head"@, Json::Str(head@)),
                ("base"@, Json::Str(base@)),
            ] + optional_member("body"@, opt_str(body)));
        }
        let json = json_object(members);
        self.call(HttpMethod::Post, self.url("/pulls"), Some(json), StatusPolicy::RequireSuccess)
    }

    /// Merges a pull request with the given method (`merge` when none is
    /// given); a non-2xx status rejects it.
    pub fn merge_pr_call(&self, pr_number: u64, merge_method: Option<&str>) -> (c: ApiCall)
        ensures
            c@ == self.call_spec(
                HttpMethod::Put,
                self.repo_url() + "/pulls/"@ + decimal(pr_number as nat) + "/merge"@,
                Some(
                    Json::Object(
                        seq![
                            (
                                "merge_method"@,
                                Json::Str(
                                    match merge_method {
                                        Some(m) => m@,
                                        None => "merge"@,
                                    },
                                ),
                            ),
                        ],
                    ),
                ),
                StatusPolicyView::RequireSuccess,
            ),
    {
        let mut url = self.url("/pulls/");
        write_decimal(&mut url, pr_number);
        url.append("/merge");
        let method = match merge_method {
            Some(m) => m,
            None => "merge",
        };
        let members = vec![entry("merge_method", json_str(String::from_str(method)))];
        proof {
            lemma_members_json(members@);
            assert(members_json(members@) =~= seq![("merge_method"@, Json::Str(method@))]);
        }
        self.call(HttpMethod::Put, url, Some(json_object(members)), StatusPolicy::RequireSuccess)
    }

    fn closed_state(&self) -> (j: JsonValue)
        ensures
            j@ == closed_state_body(),
    {
        let members = vec![entry("state", json_str(String::from_str("closed")))];
        proof {
            lemma_members_json(members@);
            assert(members_json(members@) =~= seq![("state"@, Json::Str("closed"@))]);
        }
        json_object(members)
    }

    /// Closes a pull request.
    pub fn close_pr_call(&self, pr_number: u64) -> (c: ApiCall)
        ensures
            c@ == self.call_spec(
                HttpMethod::Patch,
                self.repo_url() + "/pulls/"@ + decimal(pr_number as nat),
                Some(closed_state_body()),
                StatusPolicyView::AcceptAny,
            ),
    {
        let mut url = self.url("/pulls/");
        write_decimal(&mut url, pr_number);
        self.call(HttpMethod::Patch, url, Some(self.closed_state()), StatusPolicy::AcceptAny)
    }

    /// Lists issues, optionally by state and by labels.
    pub fn list_issues_call(&self, state: Option<&str>, labels: Option<&str>) -> (c: ApiCall)
        ensures
            c@ == self.call_spec(
                HttpMethod::Get,
                self.repo_url() + "/issues"@ + query_suffix(
                    match opt_str(state) {
                        Some(s) => seq!["state="@ + s],
                        None => Seq::empty(),
                    } + match opt_str(labels) {
                        Some(l) => seq!["labels="@ + l],
                        None => Seq::empty(),
                    },
                    "&"@,
                ),
                None,
                StatusPolicyView::AcceptAny,
            ),
    {
        let mut url = self.url("/issues");
        let mut params: Vec<String> = Vec::new();
        match state {
            Some(s) => {
                let mut p = String::from_str("state=");
                p.append(s);
                params.push(p);
            },
            None => {},
        }
        match labels {
            Some(l) => {
                let mut p = String::from_str("labels=");
                p.append(l);
                params.push(p);
            },
            None => {},
        }
        let ghost expected = match opt_str(state) {
            Some(s) => seq!["state="@ + s],
            None => Seq::empty(),
        } + match opt_str(labels) {
            Some(l) => seq!["labels="@ + l],
            None => Seq::empty(),
        };
        assert(strings_view(params@) =~= expected);
        if params.len() > 0 {
            let ghost before = url@;
            url.append("?");
            let joined = join_strings(&params, "&");
            url.append(joined.as_str());
            assert(url@ =~= before + query_suffix(expected, "&"@));
        } else {
            assert(url@ + query_suffix(expected, "&"@) =~= url@);
        }
        self.call(HttpMethod::Get, url, None, StatusPolicy::AcceptAny)
    }

    /// Fetches one issue; 404 reports `Issue #n` missing.
    pub fn get_issue_call(&self, issue_number: u64) -> (c: ApiCall)
        ensures
            c@ == self.call_spec(
                HttpMethod::Get,
                self.repo_url() + "/issues/"@ + decimal(issue_number as nat),
                None,
                StatusPolicyView::NotFoundOn404("Issue #"@ + decimal(issue_number as nat)),
            ),
    {
        let mut url = self.url("/issues/");
        write_decimal(&mut url, issue_number);
        let mut label = String::from_str("Issue #");
        write_decimal(&mut label, issue_number);
        self.call(HttpMethod::Get, url, None, StatusPolicy::NotFoundOn404(label))
    }

    /// Opens an issue with an optional body and labels; a non-2xx status
    /// rejects it.
    pub fn create_issue_call(&self, title: &str, body: Option<&str>, labels: Option<Vec<&str>>) -> (c: ApiCall)
        ensures
            c@ == self.call_spec(
                HttpMethod::Post,
                self.repo_url() + "/issues"@,
                Some(
                    Json::Object(
                        seq![("title"@, Json::Str(title@))] + optional_member("body"@, opt_str(body))
                            + labels_member(labels),
                    ),
                ),
                StatusPolicyView::RequireSuccess,
            ),
    {
        let mut members: Vec<JsonMember> = vec![entry("title", json_str(String::from_str(title)))];
        match body {
            Some(b) => members.push(entry("body", json_str(String::from_str(b)))),
            None => {},
        }
        let ghost label_view = labels_member(labels);
        match labels {
            Some(l) => {
                let mut items: Vec<JsonValue> = Vec::new();
                let mut i: usize = 0;
                while i < l.len()
                    invariant
                        i <= l@.len(),
                        items_json(items@) == l@.take(i as int).map_values(|x: &str| Json::Str(x@)),
                    decreases l@.len() - i,
                {
                    let ghost before = items@;
                    items.push(json_str(String::from_str(l[i])));
                    proof {
                        assert(items@.drop_last() =~= before);
                        assert(items_json(items@) == items_json(before).push(items@.last()@));
                        assert(l@.take(i + 1) =~= l@.take(i as int).push(l@[i as int]));
                        assert(items_json(items@) =~= l@.take(i + 1).map_values(|x: &str| Json::Str(x@)));
                    }
                    i = i + 1;
                }
                assert(l@.take(i as int) =~= l@);
                members.push(entry("labels", json_array(items)));
            },
            None => {},
        }
        proof {
            lemma_members_json(members@);
            assert(members_json(members@) =~= seq![("title"@, Json::Str(title@))] + optional_member(
                "body"@,
                opt_str(body),
            ) + label_view);
        }
        let json = json_object(members);
        self.call(HttpMethod::Post, self.url("/issues"), Some(json), StatusPolicy::RequireSuccess)
    }

    /// Closes an issue.
    pub fn close_issue_call(&self, issue_number: u64) -> (c: ApiCall)
        ensures
            c@ == self.call_spec(
                HttpMethod::Patch,
                self.repo_url() + "/issues/"@ + decimal(issue_number as nat),
                Some(closed_state_body()),
                StatusPolicyView::AcceptAny,
            ),
    {
        let mut url = self.url("/issues/");
        write_decimal(&mut url, issue_number);
        self.call(HttpMethod::Patch, url, Some(self.closed_state()), StatusPolicy::AcceptAny)
    }

    /// Lists branches.
    pub fn list_branches_call(&self) -> (c: ApiCall)
        ensures
            c@ == self.call_spec(HttpMethod::Get, self.repo_url() + "/branches"@, None, StatusPolicyView::AcceptAny),
    {
        self.call(HttpMethod::Get, self.url("/branches"), None, StatusPolicy::AcceptAny)
    }

    /// Creates the branch `name` at commit `sha`; a non-2xx status rejects it.
    pub fn create_branch_call(&self, name: &str, sha: &str) -> (c: ApiCall)
        ensures
            c@ == self.call_spec(
                HttpMethod::Post,
                self.repo_url() + "/git/refs"@,
                Some(
                    Json::Object(
                        seq![
                            ("ref"@, Json::Str("refs/heads/"@ + name@)),
                            ("sha"@, Json::Str(sha@)),
                        ],
                    ),
                ),
                StatusPolicyView::RequireSuccess,
            ),
    {
        let mut r = String::from_str("refs/heads/");
        r.append(name);
        let members = vec![entry("ref", json_str(r)), entry("sha", json_str(String::from_str(sha)))];
        proof {
            lemma_members_json(members@);
            assert(members_json(members@) =~= seq![
                ("ref"@, Json::Str("refs/heads/"@ + name@)),
                ("sha"@, Json::Str(sha@)),
            ]);
        }
        self.call(HttpMethod::Post, self.url("/git/refs"), Some(json_object(members)), StatusPolicy::RequireSuccess)
    }

    /// Deletes the branch `name`; a non-2xx status rejects it.
    pub fn delete_branch_call(&self, name: &str) -> (c: ApiCall)
        ensures
            c@ == self.call_spec(
                HttpMethod::Delete,
                self.repo_url() + "/git/refs/heads/"@ + name@,
                None,
                StatusPolicyView::RequireSuccess,
            ),
    {
        let mut url = self.url("/git/refs/heads/");
        url.append(name);
        self.call(HttpMethod::Delete, url, None, StatusPolicy::RequireSuccess)
    }

    /// Lists commits. The `sha` and `path` filters are accepted and not sent.
    pub fn list_commits_call(&self, sha: Option<&str>, path: Option<&str>) -> (c: ApiCall)
        ensures
            c@ == self.call_spec(HttpMethod::Get, self.repo_url() + "/commits"@, None, StatusPolicyView::AcceptAny),
    {
        self.call(HttpMethod::Get, self.url("/commits"), None, StatusPolicy::AcceptAny)
    }

    /// Fetches the contents entry of `path`, optionally at a ref; 404 reports
    /// the path missing.
    pub fn get_file_call(&self, path: &str, ref_: Option<&str>) -> (c: ApiCall)
        ensures
            c@ == self.call_spec(
                HttpMethod::Get,
                self.repo_url() + "/contents/"@ + path@ + param_suffix("?ref="@, opt_str(ref_)),
                None,
                StatusPolicyView::NotFoundOn404(path@),
            ),
    {
        let mut url = self.url("/contents/");
        url.append(path);
        append_param(&mut url, "?ref=", ref_);
        self.call(HttpMethod::Get, url, None, StatusPolicy::NotFoundOn404(String::from_str(path)))
    }
}

/// What `get_file` makes of the `content` field of a contents entry, given
/// as the string it holds (`None` when the entry has no such field).
pub open spec fn file_content_spec(path: Seq<char>, content: Option<Seq<char>>) -> Result<Seq<char>, GitHubErrorView> {
    match content {
        None => Err(GitHubErrorView::NotFound(path)),
        Some(c) => match base64_decode_result(without_char(c, '\n')) {
            Err(m) => Err(GitHubErrorView::ApiError(m)),
            Ok(bytes) => if valid_utf8(bytes) {
                Ok(decode_utf8(bytes))
            } else {
                Err(GitHubErrorView::ApiError(utf8_error_text(bytes)))
            },
        },
    }
}

pub open spec fn text_outcome(r: Result<String, GitHubError>) -> Result<Seq<char>, GitHubErrorView> {
    match r {
        Ok(s) => Ok(s@),
        Err(e) => Err(e@),
    }
}

/// Decodes the `content` field of a contents entry: line breaks are
/// dropped, the rest is read as base64 and the bytes as UTF-8.
pub fn decode_file_content(path: &str, content: Option<String>) -> (r: Result<String, GitHubError>)
    ensures
        text_outcome(r) == file_content_spec(path@, match content {
            Some(c) => Some(c@),
            None => None,
        }),
        forall|text: Seq<char>|
            #![trigger base64_encode(encode_utf8(text))]
            content is Some && without_char(content->0@, '\n') == base64_encode(encode_utf8(text))
                ==> r is Ok && r->Ok_0@ == text,
        content is Some && (forall|bytes: Seq<u8>|
            #[trigger] base64_encode(bytes) != without_char(content->0@, '\n'))
            ==> r is Err && r->Err_0 is ApiError,
{
    broadcast use vstd::utf8::encode_utf8_valid_utf8, vstd::utf8::encode_utf8_decode_utf8;
    match content {
        None => Err(GitHubError::NotFound(String::from_str(path))),
        Some(c) => {
            let encoded = remove_char(c.as_str(), '\n');
            match base64_standard_decode(encoded.as_str()) {
                Err(m) => Err(GitHubError::ApiError(m)),
                Ok(bytes) => match string_from_utf8(bytes) {
                    Ok(s) => Ok(s),
                    Err(m) => Err(GitHubError::ApiError(m)),
                },
            }
        },
    }
}

/// The text of the `content` member of a contents entry: its string, the
/// empty text when the member is not a string, and nothing when there is no
/// such member.
pub open spec fn content_member_spec(data: Json) -> Option<Seq<char>> {
    match field_spec(data, "content"@) {
        Some(Json::Str(s)) => Some(s),
        Some(_) => Some(Seq::empty()),
        None => None,
    }
}

/// Reads the `content` member of a contents entry, as `get_file` hands it to
/// `decode_file_content`.
pub fn content_member(data: &JsonValue) -> (r: Option<String>)
    ensures
        (match r {
            Some(s) => Some(s@),
            None => None,
        }) == content_member_spec(data@),
{
    match field(data, "content") {
        Some(JsonValue::Str(s)) => Some(s.clone()),
        Some(_) => Some(String::new()),
        None => None,
    }
}

} // verus!
