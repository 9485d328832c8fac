use base64::Engine;
use deva::github::{content_member, decode_file_content, GitHubClient, GitHubError};
use deva::http::{judge, HttpMethod, StatusPolicy, Verdict};
use deva::json::{JsonMember, JsonValue};

fn client() -> GitHubClient {
    GitHubClient::new("tok".to_string(), "octo".to_string(), "demo".to_string())
}

fn member(key: &str, value: JsonValue) -> JsonMember {
    JsonMember { key: key.to_string(), value }
}

fn s(v: &str) -> JsonValue {
    JsonValue::Str(v.to_string())
}

#[test]
fn every_request_carries_the_github_headers() {
    let c = client();
    let expected = vec![
        ("Authorization".to_string(), "Bearer tok".to_string()),
        ("User-Agent".to_string(), "deva-github".to_string()),
        ("Accept".to_string(), "application/vnd.github+json".to_string()),
    ];
    for call in [c.get_repo_call(), c.list_branches_call(), c.close_pr_call(1), c.delete_branch_call("x")] {
        assert_eq!(call.request.headers, expected);
    }
}

#[test]
fn repository_and_pull_request_urls() {
    let c = client();
    let repo = c.get_repo_call();
    assert_eq!(repo.request.url, "https://api.github.com/repos/octo/demo/");
    assert_eq!(repo.policy, StatusPolicy::NotFoundOn404("octo/demo".to_string()));
    assert_eq!(c.list_prs_call(None).request.url, "https://api.github.com/repos/octo/demo/pulls");
    assert_eq!(c.list_prs_call(Some("open")).request.url, "https://api.github.com/repos/octo/demo/pulls?state=open");
    let pr = c.get_pr_call(42);
    assert_eq!(pr.request.method, HttpMethod::Get);
    assert_eq!(pr.request.url, "https://api.github.com/repos/octo/demo/pulls/42");
    assert_eq!(pr.policy, StatusPolicy::NotFoundOn404("PR #42".to_string()));
}

#[test]
fn create_and_merge_pull_requests() {
    let c = client();
    let create = c.create_pr_call("T", "feature", "main", Some("B"));
    assert_eq!(create.request.method, HttpMethod::Post);
    assert_eq!(create.request.url, "https://api.github.com/repos/octo/demo/pulls");
    assert_eq!(create.policy, StatusPolicy::RequireSuccess);
    assert_eq!(
        create.request.body,
        Some(JsonValue::Object(vec![
            member("title", s("T")),
            member("head", s("feature")),
            member("base", s("main")),
            member("body", s("B")),
        ]))
    );
    let bare = c.create_pr_call("T", "feature", "main", None);
    assert_eq!(
        bare.request.body,
        Some(JsonValue::Object(vec![member("title", s("T")), member("head", s("feature")), member("base", s("main"))]))
    );
    let merge = c.merge_pr_call(7, None);
    assert_eq!(merge.request.method, HttpMethod::Put);
    assert_eq!(merge.request.url, "https://api.github.com/repos/octo/demo/pulls/7/merge");
    assert_eq!(merge.request.body, Some(JsonValue::Object(vec![member("merge_method", s("merge"))])));
    assert_eq!(
        c.merge_pr_call(7, Some("squash")).request.body,
        Some(JsonValue::Object(vec![member("merge_method", s("squash"))]))
    );
    let close = c.close_pr_call(7);
    assert_eq!(close.request.method, HttpMethod::Patch);
    assert_eq!(close.request.url, "https://api.github.com/repos/octo/demo/pulls/7");
    assert_eq!(close.request.body, Some(JsonValue::Object(vec![member("state", s("closed"))])));
    assert_eq!(close.policy, StatusPolicy::AcceptAny);
}

#[test]
fn issue_calls() {
    let c = client();
    assert_eq!(c.list_issues_call(None, None).request.url, "https://api.github.com/repos/octo/demo/issues");
    assert_eq!(c.list_issues_call(Some("open"), None).request.url, "https://api.github.com/repos/octo/demo/issues?state=open");
    assert_eq!(c.list_issues_call(None, Some("bug")).request.url, "https://api.github.com/repos/octo/demo/issues?labels=bug");
    assert_eq!(
        c.list_issues_call(Some("all"), Some("bug,ui")).request.url,
        "https://api.github.com/repos/octo/demo/issues?state=all&labels=bug,ui"
    );
    let get = c.get_issue_call(456);
    assert_eq!(get.request.url, "https://api.github.com/repos/octo/demo/issues/456");
    assert_eq!(get.policy, StatusPolicy::NotFoundOn404("Issue #456".to_string()));
    let create = c.create_issue_call("Crash", None, Some(vec!["bug", "p1"]));
    assert_eq!(create.request.url, "https://api.github.com/repos/octo/demo/issues");
    assert_eq!(
        create.request.body,
        Some(JsonValue::Object(vec![
            member("title", s("Crash")),
            member("labels", JsonValue::Array(vec![s("bug"), s("p1")])),
        ]))
    );
    let close = c.close_issue_call(456);
    assert_eq!(close.request.url, "https://api.github.com/repos/octo/demo/issues/456");
    assert_eq!(close.request.method, HttpMethod::Patch);
}

#[test]
fn branch_commit_and_file_calls() {
    let c = client();
    let create = c.create_branch_call("topic", "abc123");
    assert_eq!(create.request.url, "https://api.github.com/repos/octo/demo/git/refs");
    assert_eq!(
        create.request.body,
        Some(JsonValue::Object(vec![member("ref", s("refs/heads/topic")), member("sha", s("abc123"))]))
    );
    let delete = c.delete_branch_call("topic");
    assert_eq!(delete.request.method, HttpMethod::Delete);
    assert_eq!(delete.request.url, "https://api.github.com/repos/octo/demo/git/refs/heads/topic");
    assert_eq!(delete.policy, StatusPolicy::RequireSuccess);
    assert_eq!(
        c.list_commits_call(Some("abc"), Some("src")).request.url,
        "https://api.github.com/repos/octo/demo/commits"
    );
    let file = c.get_file_call("README.md", Some("dev"));
    assert_eq!(file.request.url, "https://api.github.com/repos/octo/demo/contents/README.md?ref=dev");
    assert_eq!(file.policy, StatusPolicy::NotFoundOn404("README.md".to_string()));
    assert_eq!(c.get_file_call("a/b.txt", None).request.url, "https://api.github.com/repos/octo/demo/contents/a/b.txt");
}

#[test]
fn status_verdicts() {
    assert_eq!(judge(&StatusPolicy::AcceptAny, 500), Verdict::Decode);
    assert_eq!(judge(&StatusPolicy::NotFoundOn404("x".to_string()), 404), Verdict::NotFound("x".to_string()));
    assert_eq!(judge(&StatusPolicy::NotFoundOn404("x".to_string()), 500), Verdict::Decode);
    assert_eq!(judge(&StatusPolicy::RequireSuccess, 201), Verdict::Decode);
    assert_eq!(judge(&StatusPolicy::RequireSuccess, 299), Verdict::Decode);
    assert_eq!(judge(&StatusPolicy::RequireSuccess, 300), Verdict::Rejected);
    assert_eq!(judge(&StatusPolicy::RequireSuccess, 199), Verdict::Rejected);
    assert_eq!(judge(&StatusPolicy::UnauthorizedOrNotFound("p".to_string()), 401), Verdict::Unauthorized);
    assert_eq!(judge(&StatusPolicy::UnauthorizedOrNotFound("p".to_string()), 404), Verdict::NotFound("p".to_string()));
    assert_eq!(judge(&StatusPolicy::UnauthorizedOrNotFound("p".to_string()), 200), Verdict::Decode);
}

#[test]
fn file_contents_are_decoded() {
    assert_eq!(decode_file_content("a.txt", Some("aGVs\nbG8=\n".to_string())), Ok("hello".to_string()));
    assert_eq!(decode_file_content("a.txt", Some("".to_string())), Ok("".to_string()));
    assert_eq!(
        decode_file_content("a.txt", None),
        Err(GitHubError::NotFound("a.txt".to_string()))
    );
    assert!(matches!(decode_file_content("a.txt", Some("@@@@".to_string())), Err(GitHubError::ApiError(_))));
    assert!(matches!(decode_file_content("a.txt", Some("/w==".to_string())), Err(GitHubError::ApiError(_))));
}

#[test]
fn file_contents_round_trip_through_base64() {
    let text = "fn main() {\n    println!(\"olá\");\n}\n";
    let encoded = base64::engine::general_purpose::STANDARD.encode(text);
    let wrapped: String = encoded
        .as_bytes()
        .chunks(60)
        .map(|c| std::str::from_utf8(c).unwrap().to_string() + "\n")
        .collect();
    assert_eq!(decode_file_content("main.rs", Some(wrapped)), Ok(text.to_string()));
}

#[test]
fn github_client_from_env_values() {
    assert_eq!(
        GitHubClient::from_env_values(None, None, None).err(),
        Some(GitHubError::AuthError("GITHUB_TOKEN not set".to_string()))
    );
    assert_eq!(
        GitHubClient::from_env_values(Some("t".to_string()), None, Some("r".to_string())).err(),
        Some(GitHubError::AuthError("GITHUB_OWNER not set".to_string()))
    );
    assert_eq!(
        GitHubClient::from_env_values(Some("t".to_string()), Some("o".to_string()), None).err(),
        Some(GitHubError::AuthError("GITHUB_REPO not set".to_string()))
    );
    let c = GitHubClient::from_env_values(Some("t".to_string()), Some("o".to_string()), Some("r".to_string())).ok().unwrap();
    assert_eq!((c.token.as_str(), c.owner.as_str(), c.repo.as_str()), ("t", "o", "r"));
}

#[test]
fn github_error_messages() {
    assert_eq!(GitHubError::NotFound("PR #1".to_string()).message(), "Not found: PR #1");
    assert_eq!(GitHubError::ApiError("x".to_string()).message(), "API error: x");
    assert_eq!(GitHubError::AuthError("x".to_string()).message(), "Authentication error: x");
    assert_eq!(GitHubError::InvalidPayload("x".to_string()).message(), "Invalid payload: x");
}

#[test]
fn verdicts_become_client_errors() {
    assert_eq!(GitHubError::from_verdict(Verdict::Decode, "body".to_string()), None);
    assert_eq!(
        GitHubError::from_verdict(Verdict::Unauthorized, String::new()),
        Some(GitHubError::AuthError("Unauthorized".to_string()))
    );
    assert_eq!(
        GitHubError::from_verdict(Verdict::NotFound("PR #7".to_string()), String::new()),
        Some(GitHubError::NotFound("PR #7".to_string()))
    );
    assert_eq!(
        GitHubError::from_verdict(Verdict::Rejected, "Object {}".to_string()),
        Some(GitHubError::ApiError("Object {}".to_string()))
    );
}

#[test]
fn the_content_member_of_a_contents_entry() {
    let entry = JsonValue::Object(vec![member("name", s("a.txt")), member("content", s("aGk=\n"))]);
    assert_eq!(content_member(&entry), Some("aGk=\n".to_string()));
    assert_eq!(decode_file_content("a.txt", content_member(&entry)), Ok("hi".to_string()));
    let not_text = JsonValue::Object(vec![member("content", JsonValue::UInt(3))]);
    assert_eq!(content_member(&not_text), Some(String::new()));
    let missing = JsonValue::Object(vec![member("name", s("a.txt"))]);
    assert_eq!(content_member(&missing), None);
    assert_eq!(content_member(&JsonValue::Array(vec![s("content")])), None);
    let twice = JsonValue::Object(vec![member("content", s("first")), member("content", s("second"))]);
    assert_eq!(content_member(&twice), Some("first".to_string()));
}
