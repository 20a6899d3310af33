use common::pkg::github::issues::{
    github_headers, issues_page_url, issues_url, Issue, IssueHelper, IssueListing, IssueReq,
    InvalidHeaderText, ListingAction, UniqueAction, UniqueEvent,
};

fn issue(number: u64, title: &str) -> Issue {
    Issue {
        id: 1000 + number,
        number,
        title: String::from(title),
        state: String::from("open"),
        url: format!("https://api.github.com/repos/o/r/issues/{}", number),
    }
}

fn request(title: &str) -> IssueReq {
    let mut req = IssueReq::default();
    req.title = String::from(title);
    req
}

#[test]
fn issue_request_default_is_blank() {
    let req = IssueReq::default();
    assert_eq!(req.title, "");
    assert_eq!(req.body, "");
    assert!(req.assignees.is_empty());
    assert!(req.milestone.is_none());
    assert!(req.labels.is_empty());
}

#[test]
fn headers_for_a_token() {
    let h = github_headers("abc123").unwrap();
    assert_eq!(h.accept, "application/vnd.github+json");
    assert_eq!(h.authorization, "Bearer abc123");
    assert_eq!(h.api_version, "2022-11-28");
    let h = github_headers("").unwrap();
    assert_eq!(h.authorization, "Bearer ");
}

#[test]
fn token_that_cannot_stand_in_a_header_is_refused() {
    assert_eq!(github_headers("abc\n").unwrap_err(), InvalidHeaderText);
    assert_eq!(github_headers("a\u{7f}b").unwrap_err(), InvalidHeaderText);
    assert!(github_headers("tab\tand ünïcode").is_ok());
}

#[test]
fn issue_addresses() {
    assert_eq!(
        issues_url("smartcat999", "issue_auto_report"),
        "https://api.github.com/repos/smartcat999/issue_auto_report/issues"
    );
    assert_eq!(
        issues_page_url("smartcat999", "issue_auto_report", 3),
        "https://api.github.com/repos/smartcat999/issue_auto_report/issues?per_page=50&page=3"
    );
}

#[test]
fn create_issue_request() {
    let helper = IssueHelper::new(());
    let q = helper.create_issue("tok", "o", "r").unwrap();
    assert_eq!(q.url, "https://api.github.com/repos/o/r/issues");
    assert_eq!(q.headers.authorization, "Bearer tok");
    assert!(helper.create_issue("t\r", "o", "r").is_err());
}

fn fetched_url(action: Result<ListingAction, InvalidHeaderText>, token: &str) -> String {
    match action {
        Ok(ListingAction::Fetch(q)) => {
            assert_eq!(q.headers.accept, "application/vnd.github+json");
            assert_eq!(q.headers.authorization, format!("Bearer {}", token));
            assert_eq!(q.headers.api_version, "2022-11-28");
            q.url
        }
        other => panic!("expected a page request, got {:?}", other),
    }
}

#[test]
fn listing_pages_until_an_empty_one() {
    let helper = IssueHelper::new(());
    let mut listing = IssueListing::new();
    let action = helper.list_repo_issues("tok", "o", "r", &mut listing, None);
    assert_eq!(fetched_url(action, "tok"), "https://api.github.com/repos/o/r/issues?per_page=50&page=1");
    let action = helper.list_repo_issues("tok", "o", "r", &mut listing, Some(vec![issue(1, "a"), issue(2, "b")]));
    assert_eq!(fetched_url(action, "tok"), "https://api.github.com/repos/o/r/issues?per_page=50&page=2");
    let action = helper.list_repo_issues("tok", "o", "r", &mut listing, Some(vec![issue(3, "c")]));
    assert_eq!(fetched_url(action, "tok"), "https://api.github.com/repos/o/r/issues?per_page=50&page=3");
    let action = helper.list_repo_issues("tok", "o", "r", &mut listing, Some(vec![]));
    assert!(matches!(action, Ok(ListingAction::Done)));
    assert_eq!(listing.page, 3);
    let numbers: Vec<u64> = listing.issues.iter().map(|i| i.number).collect();
    assert_eq!(numbers, vec![1, 2, 3]);
}

#[test]
fn listing_with_an_unusable_token_is_refused_before_any_request() {
    let helper = IssueHelper::new(());
    let mut listing = IssueListing::new();
    let action = helper.list_repo_issues("bad\ntoken", "o", "r", &mut listing, None);
    assert!(matches!(action, Err(InvalidHeaderText)));
    let action = helper.list_repo_issues("bad\ntoken", "o", "r", &mut listing, Some(vec![issue(1, "a")]));
    assert!(matches!(action, Err(InvalidHeaderText)));
    assert_eq!(listing.page, 1);
    assert!(listing.issues.is_empty());
}

#[test]
fn filing_lists_first_when_nothing_is_known() {
    let mut helper = IssueHelper::new(());
    let req = request("CVE-2023-25173");
    assert_eq!(helper.create_issue_unique(&req, UniqueEvent::Start), UniqueAction::ListIssues);
    let listed = vec![issue(1, "other"), issue(2, "another")];
    assert_eq!(helper.create_issue_unique(&req, UniqueEvent::Listed(listed)), UniqueAction::CreateIssue);
    assert_eq!(helper.issue_store.len(), 2);
    assert_eq!(
        helper.create_issue_unique(&req, UniqueEvent::Created(issue(3, "CVE-2023-25173"))),
        UniqueAction::Done
    );
    assert_eq!(helper.issue_store.get("CVE-2023-25173").unwrap().number, 3);
    // a second request with the same title files nothing
    assert_eq!(helper.create_issue_unique(&req, UniqueEvent::Start), UniqueAction::Done);
}

#[test]
fn listed_title_is_not_filed() {
    let mut helper = IssueHelper::new(());
    let req = request("dup");
    let listed = vec![issue(1, "dup"), issue(2, "x"), issue(5, "dup")];
    assert_eq!(helper.create_issue_unique(&req, UniqueEvent::Listed(listed)), UniqueAction::Done);
    // the later issue with the same title is the one remembered
    assert_eq!(helper.issue_store.get("dup").unwrap().number, 5);
}

#[test]
fn known_store_is_not_listed_again() {
    let mut helper = IssueHelper::new(());
    helper.create_issue_unique(&request("x"), UniqueEvent::Created(issue(1, "x")));
    assert_eq!(helper.create_issue_unique(&request("y"), UniqueEvent::Start), UniqueAction::CreateIssue);
}
