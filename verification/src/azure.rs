//! The Azure DevOps REST client: each operation as the request it sends and
//! the rule by which it reads the response.

use vstd::prelude::*;
use vstd::utf8::encode_utf8;
use crate::azure_models::Board;
use crate::codec::{base64_encode, base64_fits, base64_standard_encode};
use crate::github::{opt_str, query_suffix};
use crate::http::{
    entry, header, headers_view, json_array, json_object, json_str, ApiCall, ApiCallView,
    HttpMethod, HttpRequest, HttpRequestView, StatusPolicy, StatusPolicyView, Verdict, VerdictView,
};
use crate::json::{items_json, lemma_items_json, lemma_members_json, members_json, Json, JsonValue};
use crate::text::{decimal, join_strings, strings_view, write_decimal};

verus! {

/// Errors of the Azure DevOps client.
#[derive(Clone, Debug, PartialEq)]
pub enum AzureError {
    AuthError(String),
    ApiError(String),
    NotFound(String),
}

pub enum AzureErrorView {
    AuthError(Seq<char>),
    ApiError(Seq<char>),
    NotFound(Seq<char>),
}

impl View for AzureError {
    type V = AzureErrorView;

    open spec fn view(&self) -> AzureErrorView {
        match self {
            AzureError::AuthError(s) => AzureErrorView::AuthError(s@),
            AzureError::ApiError(s) => AzureErrorView::ApiError(s@),
            AzureError::NotFound(s) => AzureErrorView::NotFound(s@),
        }
    }
}

impl AzureError {
    /// What a client answers for the verdict on a response, given the text
    /// of the response's body for a rejection: nothing when the body is to be
    /// decoded; an authentication error `Unauthorized`; a not-found error for
    /// what was asked for; or an API error with the body's text.
    pub fn from_verdict(verdict: Verdict, rejection: String) -> (r: Option<AzureError>)
        ensures
            (match verdict@ {
                VerdictView::Decode => r is None,
                VerdictView::Unauthorized => r matches Some(AzureError::AuthError(m)) && m@ == "Unauthorized"@,
                VerdictView::NotFound(what) => r matches Some(AzureError::NotFound(m)) && m@ == what,
                VerdictView::Rejected => r matches Some(AzureError::ApiError(m)) && m@ == rejection@,
            }),
    {
        match verdict {
            Verdict::Decode => None,
            Verdict::Unauthorized => Some(AzureError::AuthError(String::from_str("Unauthorized"))),
            Verdict::NotFound(what) => Some(AzureError::NotFound(what)),
            Verdict::Rejected => Some(AzureError::ApiError(rejection)),
        }
    }
}

impl AzureError {
    pub open spec fn message_spec(self) -> Seq<char> {
        match self {
            AzureError::AuthError(s) => "Authentication error: "@ + s@,
            AzureError::ApiError(s) => "API error: "@ + s@,
            AzureError::NotFound(s) => "Not found: "@ + s@,
        }
    }

    /// The human-readable message of the error.
    pub fn message(&self) -> (m: String)
        ensures
            m@ == self.message_spec(),
    {
        let (prefix, detail) = match self {
            AzureError::AuthError(s) => ("Authentication error: ", s),
            AzureError::ApiError(s) => ("API error: ", s),
            AzureError::NotFound(s) => ("Not found: ", s),
        };
        let mut m = String::from_str(prefix);
        m.append(detail.as_str());
        m
    }
}

/// Azure DevOps API client for one project of one organization.
#[derive(Clone, Debug)]
pub struct AzureDevOpsClient {
    pub organization: String,
    pub project: String,
    pub token: String,
}

/// The string, or the empty string when there is none.
pub open spec fn str_or_empty(o: Option<&str>) -> Seq<char> {
    match o {
        Some(s) => s@,
        None => Seq::empty(),
    }
}

/// One `add` operation of a JSON patch document on a work item field.
pub open spec fn add_field_op(field: Seq<char>, value: Seq<char>) -> Json {
    Json::Object(
        seq![
            ("op"@, Json::Str("add"@)),
            ("path"@, Json::Str("/fields/"@ + field)),
            ("value"@, Json::Str(value)),
        ],
    )
}

impl AzureDevOpsClient {
    /// The `Authorization` value: HTTP basic with an empty user and the
    /// token as password.
    pub open spec fn auth_header_spec(&self) -> Seq<char> {
        "Basic "@ + base64_encode(encode_utf8(":"@ + self.token@))
    }

    /// The token is small enough for its basic credentials to be encoded.
    pub open spec fn token_fits(&self) -> bool {
        base64_fits(":"@ + self.token@)
    }

    /// `https://dev.azure.com/{organization}/{project}/_apis{path}?api-version=7.0`
    pub open spec fn api_url_spec(&self, path: Seq<char>) -> Seq<char> {
        "https://dev.azure.com/"@ + self.organization@ + "/"@ + self.project@ + "/_apis"@ + path
            + "?api-version=7.0"@
    }

    pub open spec fn headers_spec(&self, method: HttpMethod) -> Seq<(Seq<char>, Seq<char>)> {
        let base = seq![
            ("Authorization"@, self.auth_header_spec()),
            ("User-Agent"@, "deva-azure-devops"@),
        ];
        if method == HttpMethod::Post || method == HttpMethod::Patch {
            base.push(("Content-Type"@, "application/json"@))
        } else {
            base
        }
    }

    /// The call for `method` on `path`: reads answer 401 and 404, writes
    /// require a 2xx status.
    pub open spec fn call_spec(&self, method: HttpMethod, path: Seq<char>, body: Option<Json>) -> ApiCallView {
        ApiCallView {
            request: HttpRequestView {
                method,
                url: self.api_url_spec(path),
                headers: self.headers_spec(method),
                body,
            },
            policy: if method == HttpMethod::Get {
                StatusPolicyView::UnauthorizedOrNotFound(path)
            } else {
                StatusPolicyView::RequireSuccess
            },
        }
    }

    /// Creates a client.
    pub fn new(token: String, organization: String, project: String) -> (c: Self)
        ensures
            c.token == token,
            c.organization == organization,
            c.project == project,
    {
        AzureDevOpsClient { token, organization, project }
    }

    /// Creates a client from the values of `AZURE_DEVOPS_TOKEN`,
    /// `AZURE_DEVOPS_ORG` and `AZURE_DEVOPS_PROJECT`; the first that is unset
    /// is reported.
    pub fn from_env_values(token: Option<String>, organization: Option<String>, project: Option<String>) -> (r: Result<Self, AzureError>)
        ensures
            token is None ==> r is Err && r->Err_0@ == AzureErrorView::AuthError("AZURE_DEVOPS_TOKEN not set"@),
            token is Some && organization is None ==> r is Err && r->Err_0@ == AzureErrorView::AuthError("AZURE_DEVOPS_ORG not set"@),
            token is Some && organization is Some && project is None ==> r is Err && r->Err_0@ == AzureErrorView::AuthError("AZURE_DEVOPS_PROJECT not set"@),
            token is Some && organization is Some && project is Some ==> r is Ok && r->Ok_0.token == token->0 && r->Ok_0.organization == organization->0 && r->Ok_0.project == project->0,
    {
        match token {
            None => Err(AzureError::AuthError(String::from_str("AZURE_DEVOPS_TOKEN not set"))),
            Some(t) => match organization {
                None => Err(AzureError::AuthError(String::from_str("AZURE_DEVOPS_ORG not set"))),
                Some(o) => match project {
                    None => Err(AzureError::AuthError(String::from_str("AZURE_DEVOPS_PROJECT not set"))),
                    Some(p) => Ok(Self::new(t, o, p)),
                },
            },
        }
    }

    /// The `Authorization` header value.
    pub fn auth_header(&self) -> (h: String)
        requires
            self.token_fits(),
        ensures
            h@ == self.auth_header_spec(),
    {
        let mut creds = String::from_str(":");
        creds.append(self.token.as_str());
        let encoded = base64_standard_encode(creds.as_str());
        let mut h = String::from_str("Basic ");
        h.append(encoded.as_str());
        h
    }

    /// The URL of an API path.
    pub fn api_url(&self, path: &str) -> (u: String)
        ensures
            u@ == self.api_url_spec(path@),
    {
        let mut u = String::from_str("https://dev.azure.com/");
        u.append(self.organization.as_str());
        u.append("/");
        u.append(self.project.as_str());
        u.append("/_apis");
        u.append(path);
        u.append("?api-version=7.0");
        u
    }

    fn call(&self, method: HttpMethod, path: String, body: Option<JsonValue>) -> (c: ApiCall)
        requires
            self.token_fits(),
        ensures
            c@ == self.call_spec(method, path@, crate::http::json_option_view(body)),
    {
        let url = self.api_url(path.as_str());
        let mut headers = vec![
            header("Authorization", self.auth_header()),
            header("User-Agent", String::from_str("deva-azure-devops")),
        ];
        let ghost base = headers_view(headers@);
        if method == HttpMethod::Post || method == HttpMethod::Patch {
            headers.push(header("Content-Type", String::from_str("application/json")));
            assert(headers_view(headers@) =~= base.push(("Content-Type"@, "application/json"@)));
        }
        assert(headers_view(headers@) =~= self.headers_spec(method));
        let policy = if method == HttpMethod::Get {
            StatusPolicy::UnauthorizedOrNotFound(path)
        } else {
            StatusPolicy::RequireSuccess
        };
        ApiCall { request: HttpRequest { method, url, headers, body }, policy }
    }

    /// Lists work items, optionally filtered by type and by state.
    pub fn list_work_items_call(&self, work_item_type: Option<&str>, state: Option<&str>) -> (c: ApiCall)
        requires
            self.token_fits(),
        ensures
            c@ == self.call_spec(
                HttpMethod::Get,
                "/wit/workitems"@ + query_suffix(
                    match opt_str(work_item_type) {
                        Some(t) => seq!["$filter=Work Item Type eq '"@ + t + "'"@],
                        None => Seq::empty(),
                    } + match opt_str(state) {
                        Some(s) => if work_item_type is None {
                            seq!["$filter=State eq '"@ + s + "'"@]
                        } else {
                            seq!["and State eq '"@ + s + "'"@]
                        },
                        None => Seq::empty(),
                    },
                    ""@,
                ),
                None,
            ),
    {
        let mut path = String::from_str("/wit/workitems");
        let mut params: Vec<String> = Vec::new();
        match work_item_type {
            Some(t) => {
                let mut p = String::from_str("$filter=Work Item Type eq '");
                p.append(t);
                p.append("'");
                params.push(p);
            },
            None => {},
        }
        match state {
            Some(s) => {
                let mut p = if params.len() == 0 {
                    String::from_str("$filter=State eq '")
                } else {
                    String::from_str("and State eq '")
                };
                p.append(s);
                p.append("'");
                params.push(p);
            },
            None => {},
        }
        let ghost expected = match opt_str(work_item_type) {
            Some(t) => seq!["$filter=Work Item Type eq '"@ + t + "'"@],
            None => Seq::empty(),
        } + match opt_str(state) {
            Some(s) => if work_item_type is None {
                seq!["$filter=State eq '"@ + s + "'"@]
            } else {
                seq!["and State eq '"@ + s + "'"@]
            },
            None => Seq::empty(),
        };
        assert(strings_view(params@) =~= expected);
        if params.len() > 0 {
            let ghost before = path@;
            path.append("?");
            let joined = join_strings(&params, "");
            path.append(joined.as_str());
            assert(path@ =~= before + query_suffix(expected, ""@));
        } else {
            assert(path@ + query_suffix(expected, ""@) =~= path@);
        }
        self.call(HttpMethod::Get, path, None)
    }

    /// `prefix` followed by the decimal `id`.
    fn path_with_id(prefix: &str, id: u64) -> (p: String)
        ensures
            p@ == prefix@ + decimal(id as nat),
    {
        let mut p = String::from_str(prefix);
        write_decimal(&mut p, id);
        p
    }

    /// `prefix` followed by `name`.
    fn path_with_name(prefix: &str, name: &str) -> (p: String)
        ensures
            p@ == prefix@ + name@,
    {
        let mut p = String::from_str(prefix);
        p.append(name);
        p
    }

    /// Fetches one work item.
    pub fn get_work_item_call(&self, id: u64) -> (c: ApiCall)
        requires
            self.token_fits(),
        ensures
            c@ == self.call_spec(HttpMethod::Get, "/wit/workitems/"@ + decimal(id as nat), None),
    {
        self.call(HttpMethod::Get, Self::path_with_id("/wit/workitems/", id), None)
    }

    /// Creates a work item of the given type with the given title.
    pub fn create_work_item_call(&self, work_item_type: &str, title: &str) -> (c: ApiCall)
        requires
            self.token_fits(),
        ensures
            c@ == self.call_spec(
                HttpMethod::Post,
                "/wit/workitems?type="@ + work_item_type@,
                Some(Json::Array(seq![add_field_op("System.Title"@, title@)])),
            ),
    {
        let op = Self::add_field(String::from_str("System.Title"), title);
        let items = vec![op];
        proof {
            lemma_items_json(items@);
            assert(items_json(items@) =~= seq![add_field_op("System.Title"@, title@)]);
        }
        self.call(HttpMethod::Post, Self::path_with_name("/wit/workitems?type=", work_item_type), Some(json_array(items)))
    }

    fn add_field(field: String, value: &str) -> (j: JsonValue)
        ensures
            j@ == add_field_op(field@, value@),
    {
        let mut path = String::from_str("/fields/");
        path.append(field.as_str());
        let members = vec![
            entry("op", json_str(String::from_str("add"))),
            entry("path", json_str(path)),
            entry("value", json_str(String::from_str(value))),
        ];
        proof {
            lemma_members_json(members@);
            assert(members_json(members@) =~= seq![
                ("op"@, Json::Str("add"@)),
                ("path"@, Json::Str("/fields/"@ + field@)),
                ("value"@, Json::Str(value@)),
            ]);
        }
        json_object(members)
    }

    /// Sets the given fields of a work item, in order.
    pub fn update_work_item_call(&self, id: u64, changes: Vec<(&str, &str)>) -> (c: ApiCall)
        requires
            self.token_fits(),
        ensures
            c@ == self.call_spec(
                HttpMethod::Patch,
                "/wit/workitems/"@ + decimal(id as nat),
                Some(Json::Array(changes@.map_values(|ch: (&str, &str)| add_field_op(ch.0@, ch.1@)))),
            ),
    {
        let mut ops: Vec<JsonValue> = Vec::new();
        let mut i: usize = 0;
        while i < changes.len()
            invariant
                i <= changes@.len(),
                items_json(ops@) == changes@.take(i as int).map_values(
                    |ch: (&str, &str)| add_field_op(ch.0@, ch.1@),
                ),
            decreases changes@.len() - i,
        {
            let (field, value) = changes[i];
            let ghost before = ops@;
            ops.push(Self::add_field(String::from_str(field), value));
            proof {
                assert(ops@.drop_last() =~= before);
                assert(items_json(ops@) == items_json(before).push(ops@.last()@));
                assert(changes@.take(i + 1) =~= changes@.take(i as int).push(changes@[i as int]));
                assert(items_json(ops@) =~= changes@.take(i + 1).map_values(
                    |ch: (&str, &str)| add_field_op(ch.0@, ch.1@),
                ));
            }
            i = i + 1;
        }
        assert(changes@.take(i as int) =~= changes@);
        self.call(HttpMethod::Patch, Self::path_with_id("/wit/workitems/", id), Some(json_array(ops)))
    }

    /// Deletes a work item.
    pub fn delete_work_item_call(&self, id: u64) -> (c: ApiCall)
        requires
            self.token_fits(),
        ensures
            c@ == self.call_spec(HttpMethod::Delete, "/wit/workitems/"@ + decimal(id as nat), None),
    {
        self.call(HttpMethod::Delete, Self::path_with_id("/wit/workitems/", id), None)
    }

    /// Lists sprints (iterations).
    pub fn list_sprints_call(&self) -> (c: ApiCall)
        requires
            self.token_fits(),
        ensures
            c@ == self.call_spec(HttpMethod::Get, "/wit/iterations"@, None),
    {
        self.call(HttpMethod::Get, String::from_str("/wit/iterations"), None)
    }

    /// Fetches one sprint.
    pub fn get_sprint_call(&self, sprint_id: &str) -> (c: ApiCall)
        requires
            self.token_fits(),
        ensures
            c@ == self.call_spec(HttpMethod::Get, "/wit/iterations/"@ + sprint_id@, None),
    {
        self.call(HttpMethod::Get, Self::path_with_name("/wit/iterations/", sprint_id), None)
    }

    /// Lists builds.
    pub fn list_builds_call(&self) -> (c: ApiCall)
        requires
            self.token_fits(),
        ensures
            c@ == self.call_spec(HttpMethod::Get, "/build/builds"@, None),
    {
        self.call(HttpMethod::Get, String::from_str("/build/builds"), None)
    }

    /// Queues a build of a definition, optionally on a branch.
    pub fn trigger_build_call(&self, definition_id: u64, branch: Option<&str>) -> (c: ApiCall)
        requires
            self.token_fits(),
        ensures
            c@ == self.call_spec(
                HttpMethod::Post,
                "/build/builds"@,
                Some(
                    Json::Object(
                        seq![
                            (
                                "definition"@,
                                Json::Object(seq![("id"@, Json::Number(definition_id as int))]),
                            ),
                        ] + match opt_str(branch) {
                            Some(b) => seq![
                                (
                                    "parameters"@,
                                    Json::Object(seq![("SourceBranch"@, Json::Str(b))]),
                                ),
                            ],
                            None => Seq::empty(),
                        },
                    ),
                ),
            ),
    {
        let id_members = vec![entry("id", JsonValue::UInt(definition_id))];
        proof {
            lemma_members_json(id_members@);
            assert(members_json(id_members@) =~= seq![("id"@, Json::Number(definition_id as int))]);
        }
        let mut members = vec![entry("definition", json_object(id_members))];
        match branch {
            Some(b) => {
                let param_members = vec![entry("SourceBranch", json_str(String::from_str(b)))];
                proof {
                    lemma_members_json(param_members@);
                    assert(members_json(param_members@) =~= seq![("SourceBranch"@, Json::Str(b@))]);
                }
                members.push(entry("parameters", json_object(param_members)));
            },
            None => {},
        }
        proof {
            lemma_members_json(members@);
            assert(members_json(members@) =~= seq![
                ("definition"@, Json::Object(seq![("id"@, Json::Number(definition_id as int))])),
            ] + match opt_str(branch) {
                Some(b) => seq![("parameters"@, Json::Object(seq![("SourceBranch"@, Json::Str(b))]))],
                None => Seq::empty(),
            });
        }
        self.call(HttpMethod::Post, String::from_str("/build/builds"), Some(json_object(members)))
    }

    /// Lists releases.
    pub fn list_releases_call(&self) -> (c: ApiCall)
        requires
            self.token_fits(),
        ensures
            c@ == self.call_spec(HttpMethod::Get, "/release/releases"@, None),
    {
        self.call(HttpMethod::Get, String::from_str("/release/releases"), None)
    }

    /// Creates a release of a definition; the description defaults to empty.
    pub fn create_release_call(&self, definition_id: u64, description: Option<&str>) -> (c: ApiCall)
        requires
            self.token_fits(),
        ensures
            c@ == self.call_spec(
                HttpMethod::Post,
                "/release/releases"@,
                Some(
                    Json::Object(
                        seq![
                            ("definitionId"@, Json::Number(definition_id as int)),
                            (
                                "description"@,
                                Json::Str(str_or_empty(description)),
                            ),
                        ],
                    ),
                ),
            ),
    {
        let d = match description {
            Some(d) => d,
            None => "",
        };
        let desc = String::from_str(d);
        proof {
            if description is None {
                reveal_strlit("");
                assert(desc@ =~= Seq::<char>::empty());
            }
        }
        let ghost d_view = str_or_empty(description);
        assert(desc@ == d_view);
        let members = vec![entry("definitionId", JsonValue::UInt(definition_id)), entry("description", json_str(desc))];
        proof {
            lemma_members_json(members@);
            assert(members_json(members@) =~= seq![
                ("definitionId"@, Json::Number(definition_id as int)),
                ("description"@, Json::Str(d_view)),
            ]);
        }
        let json = json_object(members);
        self.call(HttpMethod::Post, String::from_str("/release/releases"), Some(json))
    }

    /// Lists the Git repositories of the project.
    pub fn list_repos_call(&self) -> (c: ApiCall)
        requires
            self.token_fits(),
        ensures
            c@ == self.call_spec(HttpMethod::Get, "/git/repositories"@, None),
    {
        self.call(HttpMethod::Get, String::from_str("/git/repositories"), None)
    }

    /// Lists pull requests, optionally of one repository and by status.
    pub fn list_pull_requests_call(&self, repo_id: Option<&str>, status: Option<&str>) -> (c: ApiCall)
        requires
            self.token_fits(),
        ensures
            c@ == self.call_spec(
                HttpMethod::Get,
                "/git/pullrequests"@ + query_suffix(
                    match opt_str(repo_id) {
                        Some(r) => seq!["repositoryId="@ + r],
                        None => Seq::empty(),
                    } + match opt_str(status) {
                        Some(s) => seq!["searchCriteria.status="@ + s],
                        None => Seq::empty(),
                    },
                    "&"@,
                ),
                None,
            ),
    {
        let mut path = String::from_str("/git/pullrequests");
        let mut params: Vec<String> = Vec::new();
        match repo_id {
            Some(r) => {
                let mut p = String::from_str("repositoryId=");
                p.append(r);
                params.push(p);
            },
            None => {},
        }
        match status {
            Some(s) => {
                let mut p = String::from_str("searchCriteria.status=");
                p.append(s);
                params.push(p);
            },
            None => {},
        }
        let ghost expected = match opt_str(repo_id) {
            Some(r) => seq!["repositoryId="@ + r],
            None => Seq::empty(),
        } + match opt_str(status) {
            Some(s) => seq!["searchCriteria.status="@ + s],
            None => Seq::empty(),
        };
        assert(strings_view(params@) =~= expected);
        if params.len() > 0 {
            let ghost before = path@;
            path.append("?");
            let joined = join_strings(&params, "&");
            path.append(joined.as_str());
            assert(path@ =~= before + query_suffix(expected, "&"@));
        } else {
            assert(path@ + query_suffix(expected, "&"@) =~= path@);
        }
        self.call(HttpMethod::Get, path, None)
    }

    /// Fetches a task board.
    pub fn get_board_call(&self, board_name: &str) -> (c: ApiCall)
        requires
            self.token_fits(),
        ensures
            c@ == self.call_spec(HttpMethod::Get, "/wit/boards/"@ + board_name@, None),
    {
        self.call(HttpMethod::Get, Self::path_with_name("/wit/boards/", board_name), None)
    }
}

/// The board that `get_board` returns from the summary the server sends:
/// its id, name and URL, with no columns.
pub fn board_from_summary(id: String, name: String, url: String) -> (b: Board)
    ensures
        b.id == id,
        b.name == name,
        b.url == url,
        b.columns@.len() == 0,
{
    Board { id, name, url, columns: Vec::new() }
}

/// Every call that sends a JSON body says so: a POST or a PATCH (creating or
/// updating work items, queuing builds, creating releases) carries the
/// credentials, the user agent and `Content-Type: application/json`; a GET
/// or a DELETE, which sends no body, carries only the first two.
pub proof fn law_json_bodies_are_announced(
    c: AzureDevOpsClient,
    method: HttpMethod,
    path: Seq<char>,
    body: Option<Json>,
)
    ensures
        (method == HttpMethod::Post || method == HttpMethod::Patch) ==> c.call_spec(
            method,
            path,
            body,
        ).request.headers == seq![
            ("Authorization"@, c.auth_header_spec()),
            ("User-Agent"@, "deva-azure-devops"@),
            ("Content-Type"@, "application/json"@),
        ],
        (method == HttpMethod::Post || method == HttpMethod::Patch) ==> c.call_spec(
            method,
            path,
            body,
        ).request.headers.contains(("Content-Type"@, "application/json"@)),
        (method == HttpMethod::Get || method == HttpMethod::Delete) ==> c.call_spec(
            method,
            path,
            body,
        ).request.headers == seq![
            ("Authorization"@, c.auth_header_spec()),
            ("User-Agent"@, "deva-azure-devops"@),
        ],
{
    let h = c.call_spec(method, path, body).request.headers;
    if method == HttpMethod::Post || method == HttpMethod::Patch {
        assert(h =~= seq![
            ("Authorization"@, c.auth_header_spec()),
            ("User-Agent"@, "deva-azure-devops"@),
            ("Content-Type"@, "application/json"@),
        ]);
        assert(h[2] == ("Content-Type"@, "application/json"@));
    }
}

} // verus!
