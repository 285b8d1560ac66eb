use data_loader_rust::github::{
    with_page_size, FetchAction, GitHubClient, HttpHeader, Pager, GITHUB_API_BASE_URL,
    REQUEST_TIMEOUT_SECS,
};

fn first_url<T: std::fmt::Debug>(pager: &Pager<T>) -> String {
    match pager.action() {
        FetchAction::Send(request) => request.url,
        other => panic!("expected a request, got {:?}", other),
    }
}

fn text(s: &str) -> Option<String> {
    Some(s.to_string())
}

#[test]
fn constants_of_the_client() {
    assert_eq!(GITHUB_API_BASE_URL, "https://api.github.com");
    assert_eq!(REQUEST_TIMEOUT_SECS, 30);
}

#[test]
fn page_size_is_one_more_query_parameter() {
    assert_eq!(with_page_size("https://h/p"), "https://h/p?per_page=100");
    assert_eq!(with_page_size("https://h/p?a=1"), "https://h/p?a=1&per_page=100");
    assert_eq!(with_page_size(""), "?per_page=100");
    assert_eq!(with_page_size("?"), "?&per_page=100");
}

#[test]
fn commits_without_narrowing() {
    let client = GitHubClient::new(None);
    let pager = client.get_commits("bitcoin", "bitcoin", None, None, None);
    assert_eq!(
        first_url(&pager),
        "https://api.github.com/repos/bitcoin/bitcoin/commits?per_page=100"
    );
}

#[test]
fn commits_since_an_instant() {
    let client = GitHubClient::new(None);
    let pager = client.get_commits(
        "bitcoin",
        "bitcoin",
        text("2024-01-01T00:00:00+00:00"),
        None,
        None,
    );
    assert_eq!(
        first_url(&pager),
        "https://api.github.com/repos/bitcoin/bitcoin/commits?since=2024-01-01T00:00:00+00:00&per_page=100"
    );
}

#[test]
fn commits_with_every_parameter() {
    let client = GitHubClient::new(None);
    let pager = client.get_commits("o", "n", text("a"), text("b"), text("main"));
    assert_eq!(
        first_url(&pager),
        "https://api.github.com/repos/o/n/commits?since=a&until=b&sha=main&per_page=100"
    );
}

#[test]
fn commits_with_branch_alone() {
    let client = GitHubClient::new(None);
    let pager = client.get_commits("o", "n", None, None, text("v1"));
    assert_eq!(
        first_url(&pager),
        "https://api.github.com/repos/o/n/commits?sha=v1&per_page=100"
    );
    let pager = client.get_commits("o", "n", None, text("u"), None);
    assert_eq!(
        first_url(&pager),
        "https://api.github.com/repos/o/n/commits?until=u&per_page=100"
    );
}

#[test]
fn pull_requests_default_to_every_state() {
    let client = GitHubClient::new(None);
    let pager = client.get_pull_requests("bitcoin", "bitcoin", None, None, None);
    assert_eq!(
        first_url(&pager),
        "https://api.github.com/repos/bitcoin/bitcoin/pulls?state=all&per_page=100"
    );
}

#[test]
fn pull_requests_with_every_parameter() {
    let client = GitHubClient::new(None);
    let pager =
        client.get_pull_requests("o", "n", text("open"), text("created"), text("desc"));
    assert_eq!(
        first_url(&pager),
        "https://api.github.com/repos/o/n/pulls?state=open&sort=created&direction=desc&per_page=100"
    );
}

#[test]
fn issues_default_to_every_state() {
    let client = GitHubClient::new(None);
    let pager = client.get_issues("o", "n", None, None, text("2024-01-01T00:00:00+00:00"));
    assert_eq!(
        first_url(&pager),
        "https://api.github.com/repos/o/n/issues?state=all&since=2024-01-01T00:00:00+00:00&per_page=100"
    );
}

#[test]
fn issues_with_every_parameter() {
    let client = GitHubClient::new(None);
    let pager = client.get_issues("o", "n", text("closed"), text("mentioned"), text("s"));
    assert_eq!(
        first_url(&pager),
        "https://api.github.com/repos/o/n/issues?state=closed&filter=mentioned&since=s&per_page=100"
    );
}

#[test]
fn contributors_take_no_parameter() {
    let client = GitHubClient::new(None);
    let pager = client.get_contributors("o", "n");
    assert_eq!(
        first_url(&pager),
        "https://api.github.com/repos/o/n/contributors?per_page=100"
    );
}

#[test]
fn repository_description_is_one_plain_request() {
    let client = GitHubClient::new(Some("t".to_string()));
    let request = client.get_repo_info("bitcoin", "bitcoin");
    assert_eq!(request.url, "https://api.github.com/repos/bitcoin/bitcoin");
    assert_eq!(
        request.headers,
        vec![
            HttpHeader {
                name: "User-Agent".to_string(),
                value: "corevsknots-data-loader".to_string()
            },
            HttpHeader {
                name: "Accept".to_string(),
                value: "application/vnd.github.v3+json".to_string()
            },
            HttpHeader {
                name: "Authorization".to_string(),
                value: "token t".to_string()
            },
        ]
    );
}

#[test]
fn plain_request_keeps_the_url_as_given() {
    let client = GitHubClient::new(None);
    let request = client.get("https://api.x/y?z=1");
    assert_eq!(request.url, "https://api.x/y?z=1");
    assert_eq!(request.headers.len(), 2);
}
