use deva::azure::{board_from_summary, AzureDevOpsClient, AzureError};
use deva::http::{HttpMethod, StatusPolicy, Verdict};
use deva::json::{JsonMember, JsonValue};

fn client() -> AzureDevOpsClient {
    AzureDevOpsClient::new("abc".to_string(), "org".to_string(), "proj".to_string())
}

fn member(key: &str, value: JsonValue) -> JsonMember {
    JsonMember { key: key.to_string(), value }
}

fn s(v: &str) -> JsonValue {
    JsonValue::Str(v.to_string())
}

fn op(field: &str, value: &str) -> JsonValue {
    JsonValue::Object(vec![
        member("op", s("add")),
        member("path", s(&format!("/fields/{}", field))),
        member("value", s(value)),
    ])
}

#[test]
fn basic_auth_header() {
    assert_eq!(client().auth_header(), "Basic OmFiYw==");
    let long = AzureDevOpsClient::new("secret-token".to_string(), "o".to_string(), "p".to_string());
    assert_eq!(long.auth_header(), "Basic OnNlY3JldC10b2tlbg==");
    let empty = AzureDevOpsClient::new(String::new(), "o".to_string(), "p".to_string());
    assert_eq!(empty.auth_header(), "Basic Og==");
}

#[test]
fn api_urls() {
    let c = client();
    assert_eq!(c.api_url("/wit/iterations"), "https://dev.azure.com/org/proj/_apis/wit/iterations?api-version=7.0");
}

#[test]
fn reads_and_writes_have_their_headers_and_policies() {
    let c = client();
    let get = c.get_work_item_call(12);
    assert_eq!(get.request.method, HttpMethod::Get);
    assert_eq!(get.request.url, "https://dev.azure.com/org/proj/_apis/wit/workitems/12?api-version=7.0");
    assert_eq!(
        get.request.headers,
        vec![
            ("Authorization".to_string(), "Basic OmFiYw==".to_string()),
            ("User-Agent".to_string(), "deva-azure-devops".to_string()),
        ]
    );
    assert_eq!(get.policy, StatusPolicy::UnauthorizedOrNotFound("/wit/workitems/12".to_string()));
    let delete = c.delete_work_item_call(12);
    assert_eq!(delete.request.method, HttpMethod::Delete);
    assert_eq!(delete.policy, StatusPolicy::RequireSuccess);
    assert_eq!(delete.request.headers.len(), 2);
    let create = c.create_work_item_call("Bug", "Crash");
    assert_eq!(create.request.method, HttpMethod::Post);
    assert_eq!(create.request.url, "https://dev.azure.com/org/proj/_apis/wit/workitems?type=Bug?api-version=7.0");
    assert_eq!(create.request.headers[2], ("Content-Type".to_string(), "application/json".to_string()));
    assert_eq!(create.request.body, Some(JsonValue::Array(vec![op("System.Title", "Crash")])));
    assert_eq!(create.policy, StatusPolicy::RequireSuccess);
}

#[test]
fn work_item_queries() {
    let c = client();
    assert_eq!(
        c.list_work_items_call(None, None).request.url,
        "https://dev.azure.com/org/proj/_apis/wit/workitems?api-version=7.0"
    );
    assert_eq!(
        c.list_work_items_call(Some("Bug"), None).request.url,
        "https://dev.azure.com/org/proj/_apis/wit/workitems?$filter=Work Item Type eq 'Bug'?api-version=7.0"
    );
    assert_eq!(
        c.list_work_items_call(None, Some("Active")).request.url,
        "https://dev.azure.com/org/proj/_apis/wit/workitems?$filter=State eq 'Active'?api-version=7.0"
    );
    assert_eq!(
        c.list_work_items_call(Some("Bug"), Some("Active")).request.url,
        "https://dev.azure.com/org/proj/_apis/wit/workitems?$filter=Work Item Type eq 'Bug'and State eq 'Active'?api-version=7.0"
    );
}

#[test]
fn update_work_item_body() {
    let c = client();
    let call = c.update_work_item_call(9, vec![("System.State", "Done"), ("System.Title", "New")]);
    assert_eq!(call.request.method, HttpMethod::Patch);
    assert_eq!(call.request.url, "https://dev.azure.com/org/proj/_apis/wit/workitems/9?api-version=7.0");
    assert_eq!(call.request.body, Some(JsonValue::Array(vec![op("System.State", "Done"), op("System.Title", "New")])));
    assert_eq!(c.update_work_item_call(9, vec![]).request.body, Some(JsonValue::Array(vec![])));
}

#[test]
fn sprints_builds_releases_repos() {
    let c = client();
    assert_eq!(c.list_sprints_call().request.url, "https://dev.azure.com/org/proj/_apis/wit/iterations?api-version=7.0");
    assert_eq!(c.get_sprint_call("s1").request.url, "https://dev.azure.com/org/proj/_apis/wit/iterations/s1?api-version=7.0");
    assert_eq!(c.list_builds_call().request.url, "https://dev.azure.com/org/proj/_apis/build/builds?api-version=7.0");
    assert_eq!(
        c.trigger_build_call(5, None).request.body,
        Some(JsonValue::Object(vec![member("definition", JsonValue::Object(vec![member("id", JsonValue::UInt(5))]))]))
    );
    assert_eq!(
        c.trigger_build_call(5, Some("refs/heads/main")).request.body,
        Some(JsonValue::Object(vec![
            member("definition", JsonValue::Object(vec![member("id", JsonValue::UInt(5))])),
            member("parameters", JsonValue::Object(vec![member("SourceBranch", s("refs/heads/main"))])),
        ]))
    );
    assert_eq!(c.list_releases_call().request.url, "https://dev.azure.com/org/proj/_apis/release/releases?api-version=7.0");
    assert_eq!(
        c.create_release_call(3, None).request.body,
        Some(JsonValue::Object(vec![member("definitionId", JsonValue::UInt(3)), member("description", s(""))]))
    );
    assert_eq!(
        c.create_release_call(3, Some("v1")).request.body,
        Some(JsonValue::Object(vec![member("definitionId", JsonValue::UInt(3)), member("description", s("v1"))]))
    );
    assert_eq!(c.list_repos_call().request.url, "https://dev.azure.com/org/proj/_apis/git/repositories?api-version=7.0");
}

#[test]
fn pull_requests_and_boards() {
    let c = client();
    assert_eq!(
        c.list_pull_requests_call(None, None).request.url,
        "https://dev.azure.com/org/proj/_apis/git/pullrequests?api-version=7.0"
    );
    assert_eq!(
        c.list_pull_requests_call(Some("r1"), Some("active")).request.url,
        "https://dev.azure.com/org/proj/_apis/git/pullrequests?repositoryId=r1&searchCriteria.status=active?api-version=7.0"
    );
    assert_eq!(
        c.list_pull_requests_call(None, Some("active")).request.url,
        "https://dev.azure.com/org/proj/_apis/git/pullrequests?searchCriteria.status=active?api-version=7.0"
    );
    let board = c.get_board_call("Stories");
    assert_eq!(board.request.url, "https://dev.azure.com/org/proj/_apis/wit/boards/Stories?api-version=7.0");
    assert_eq!(board.policy, StatusPolicy::UnauthorizedOrNotFound("/wit/boards/Stories".to_string()));
    let b = board_from_summary("1".to_string(), "Stories".to_string(), "u".to_string());
    assert_eq!((b.id.as_str(), b.name.as_str(), b.url.as_str(), b.columns.len()), ("1", "Stories", "u", 0));
}

#[test]
fn azure_client_from_env_values() {
    assert_eq!(
        AzureDevOpsClient::from_env_values(None, Some("o".to_string()), Some("p".to_string())).err(),
        Some(AzureError::AuthError("AZURE_DEVOPS_TOKEN not set".to_string()))
    );
    assert_eq!(
        AzureDevOpsClient::from_env_values(Some("t".to_string()), None, None).err(),
        Some(AzureError::AuthError("AZURE_DEVOPS_ORG not set".to_string()))
    );
    assert_eq!(
        AzureDevOpsClient::from_env_values(Some("t".to_string()), Some("o".to_string()), None).err(),
        Some(AzureError::AuthError("AZURE_DEVOPS_PROJECT not set".to_string()))
    );
    assert!(AzureDevOpsClient::from_env_values(Some("t".to_string()), Some("o".to_string()), Some("p".to_string())).is_ok());
}

#[test]
fn azure_error_messages() {
    assert_eq!(AzureError::AuthError("Unauthorized".to_string()).message(), "Authentication error: Unauthorized");
    assert_eq!(AzureError::ApiError("x".to_string()).message(), "API error: x");
    assert_eq!(AzureError::NotFound("/wit".to_string()).message(), "Not found: /wit");
}

#[test]
fn azure_verdicts_become_client_errors() {
    assert!(AzureError::from_verdict(Verdict::Decode, String::new()).is_none());
    assert!(matches!(
        AzureError::from_verdict(Verdict::Unauthorized, String::new()),
        Some(AzureError::AuthError(m)) if m == "Unauthorized"
    ));
    assert!(matches!(
        AzureError::from_verdict(Verdict::NotFound("repo".to_string()), String::new()),
        Some(AzureError::NotFound(m)) if m == "repo"
    ));
    assert!(matches!(
        AzureError::from_verdict(Verdict::Rejected, "Null".to_string()),
        Some(AzureError::ApiError(m)) if m == "Null"
    ));
}
