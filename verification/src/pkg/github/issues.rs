//! GitHub issues: the requests the service sends and the titles it has filed.
//!
//! Sending requests is the caller's part. The library says which request to
//! send and keeps the store of known issues, by title, so that a finding is
//! filed once.

use crate::text::{decimal, push_decimal};
use vstd::hash_map::StringHashMap;
use vstd::prelude::*;

verus! {

/// An issue as GitHub describes it.
#[derive(Debug)]
pub struct Issue {
    pub id: u64,
    pub number: u64,
    pub title: String,
    pub state: String,
    pub url: String,
}

impl Clone for Issue {
    fn clone(&self) -> (r: Self)
        ensures
            r == *self,
    {
        Issue {
            id: self.id,
            number: self.number,
            title: self.title.clone(),
            state: self.state.clone(),
            url: self.url.clone(),
        }
    }
}

/// The request that files a new issue.
#[derive(Debug)]
pub struct IssueReq {
    pub title: String,
    pub body: String,
    pub assignees: Vec<String>,
    pub milestone: Option<String>,
    pub labels: Vec<String>,
}

/// An issue request, as text.
pub struct IssueReqView {
    pub title: Seq<char>,
    pub body: Seq<char>,
    pub assignees: Seq<Seq<char>>,
    pub milestone: Option<Seq<char>>,
    pub labels: Seq<Seq<char>>,
}

impl View for IssueReq {
    type V = IssueReqView;

    open spec fn view(&self) -> IssueReqView {
        IssueReqView {
            title: self.title@,
            body: self.body@,
            assignees: self.assignees.deep_view(),
            milestone: match self.milestone {
                Some(m) => Some(m@),
                None => None,
            },
            labels: self.labels.deep_view(),
        }
    }
}

impl Default for IssueReq {
    fn default() -> (r: Self)
        ensures
            r@ == (IssueReqView {
                title: Seq::empty(),
                body: Seq::empty(),
                assignees: Seq::empty(),
                milestone: None,
                labels: Seq::empty(),
            }),
    {
        let r = IssueReq {
            title: String::new(),
            body: String::new(),
            assignees: Vec::new(),
            milestone: None,
            labels: Vec::new(),
        };
        assert(r.assignees.deep_view() =~= Seq::<Seq<char>>::empty());
        assert(r.labels.deep_view() =~= Seq::<Seq<char>>::empty());
        r
    }
}

/// The part of an issue that the service reads back: its web address.
#[derive(Debug)]
pub struct IssueResponse {
    pub html_url: String,
}

/// A character that an HTTP header value may hold: a tab, or any character
/// from the space on except DEL.
pub open spec fn header_char_ok(c: char) -> bool {
    c == '\t' || (c as u32 >= 32 && c as u32 != 127)
}

/// A text that an HTTP header value may hold.
pub open spec fn valid_header_text(s: Seq<char>) -> bool {
    forall|i: int| 0 <= i < s.len() ==> header_char_ok(#[trigger] s[i])
}

/// Calls `http::HeaderValue::from_str` and reports whether it accepted the
/// text. Its source accepts exactly the texts whose every byte is a tab or is
/// at least 32 and not 127; every byte of a character outside ASCII is at
/// least 128 in UTF-8, so that is the per-character test `valid_header_text`.
#[verifier::external_body]
fn header_value_accepted(text: &str) -> (ok: bool)
    ensures
        ok == valid_header_text(text@),
{
    http::HeaderValue::from_str(text).is_ok()
}

/// A header value that HTTP does not accept.
#[derive(Debug, Clone, Copy, PartialEq, Eq)]
pub struct InvalidHeaderText;

/// The headers of every request to the GitHub API.
#[derive(Debug)]
pub struct GithubHeaders {
    pub accept: String,
    pub authorization: String,
    pub api_version: String,
}

/// The `Authorization` value for an API token.
pub open spec fn bearer(token: Seq<char>) -> Seq<char> {
    "Bearer "@ + token
}

/// The API headers for `token`: the JSON media type, the bearer token and
/// the API version.
pub open spec fn carries_api_headers(h: GithubHeaders, token: Seq<char>) -> bool {
    &&& h.accept@ == "application/vnd.github+json"@
    &&& h.authorization@ == bearer(token)
    &&& h.api_version@ == "2022-11-28"@
}

/// The headers for API requests made with `token`; refused when the token
/// cannot stand in a header.
pub fn github_headers(token: &str) -> (r: Result<GithubHeaders, InvalidHeaderText>)
    ensures
        r is Ok <==> valid_header_text(bearer(token@)),
        r matches Ok(h) ==> carries_api_headers(h, token@),
{
    let accept = String::from_str("application/vnd.github+json");
    proof {
        reveal_strlit("application/vnd.github+json");
    }
    if !header_value_accepted(accept.as_str()) {
        return Err(InvalidHeaderText);
    }
    let mut authorization = String::from_str("Bearer ");
    authorization.append(token);
    if !header_value_accepted(authorization.as_str()) {
        return Err(InvalidHeaderText);
    }
    let api_version = String::from_str("2022-11-28");
    proof {
        reveal_strlit("2022-11-28");
    }
    if !header_value_accepted(api_version.as_str()) {
        return Err(InvalidHeaderText);
    }
    Ok(GithubHeaders { accept, authorization, api_version })
}

/// The address of the issues of `owner/repo`.
pub open spec fn spec_issues_url(owner: Seq<char>, repo: Seq<char>) -> Seq<char> {
    "https://api.github.com/repos/"@ + owner + "/"@ + repo + "/issues"@
}

/// The address of the issues of `owner/repo`.
pub fn issues_url(owner: &str, repo: &str) -> (s: String)
    ensures
        s@ == spec_issues_url(owner@, repo@),
{
    let mut s = String::from_str("https://api.github.com/repos/");
    s.append(owner);
    s.append("/");
    s.append(repo);
    s.append("/issues");
    s
}

/// How many issues one listing request asks for.
pub const ISSUES_PER_PAGE: u64 = 50;

/// The address of page `page` of the issue listing of `owner/repo`.
pub open spec fn spec_issues_page_url(owner: Seq<char>, repo: Seq<char>, page: nat) -> Seq<char> {
    spec_issues_url(owner, repo) + "?per_page="@ + decimal(ISSUES_PER_PAGE as nat) + "&page="@
        + decimal(page)
}

/// The address of page `page` of the issue listing of `owner/repo`.
pub fn issues_page_url(owner: &str, repo: &str, page: u32) -> (s: String)
    ensures
        s@ == spec_issues_page_url(owner@, repo@, page as nat),
{
    let mut s = issues_url(owner, repo);
    s.append("?per_page=");
    push_decimal(&mut s, ISSUES_PER_PAGE);
    s.append("&page=");
    push_decimal(&mut s, page as u64);
    assert(s@ =~= spec_issues_page_url(owner@, repo@, page as nat));
    s
}

/// A request to the GitHub API, without its body.
#[derive(Debug)]
pub struct GithubRequest {
    pub url: String,
    pub headers: GithubHeaders,
}

/// The issues listed so far, and the page to ask for next.
#[derive(Debug)]
pub struct IssueListing {
    pub page: u32,
    pub issues: Vec<Issue>,
}

impl IssueListing {
    /// A listing that has not asked for anything yet: page 1 comes first.
    pub fn new() -> (r: Self)
        ensures
            r.page == 1,
            r.issues@.len() == 0,
    {
        IssueListing { page: 1, issues: Vec::new() }
    }
}

/// What a listing does next.
#[derive(Debug)]
pub enum ListingAction {
    /// Send this request for the next page.
    Fetch(GithubRequest),
    /// Every page has been read; the listing holds all issues.
    Done,
}

/// Which issues are known once `issues` have been listed into `store`, in
/// order: a later issue with the same title replaces an earlier one.
pub open spec fn with_listed(store: Map<Seq<char>, Issue>, issues: Seq<Issue>) -> Map<
    Seq<char>,
    Issue,
>
    decreases issues.len(),
{
    if issues.len() == 0 {
        store
    } else {
        with_listed(store, issues.drop_last()).insert(issues.last().title@, issues.last())
    }
}

/// The next step of filing an issue only once.
#[derive(Debug)]
pub enum UniqueEvent {
    /// A request to file an issue arrives.
    Start,
    /// The repository's issues were listed.
    Listed(Vec<Issue>),
    /// The issue was filed; GitHub answered with it.
    Created(Issue),
}

/// What filing an issue once asks for next.
#[derive(Debug, Clone, Copy, PartialEq, Eq)]
pub enum UniqueAction {
    /// List the repository's issues.
    ListIssues,
    /// File the requested issue.
    CreateIssue,
    /// Nothing is left to do.
    Done,
}

/// What follows once the store is looked up for `title`.
pub open spec fn known_action(store: Map<Seq<char>, Issue>, title: Seq<char>) -> UniqueAction {
    if store.contains_key(title) {
        UniqueAction::Done
    } else {
        UniqueAction::CreateIssue
    }
}

/// What a request to file an issue titled `title` asks for first.
pub open spec fn start_action(store: Map<Seq<char>, Issue>, title: Seq<char>) -> UniqueAction {
    if store.is_empty() {
        UniqueAction::ListIssues
    } else {
        known_action(store, title)
    }
}

/// The GitHub client and the store of known issues, by title.
pub struct IssueHelper<C> {
    pub client: C,
    pub issue_store: StringHashMap<Issue>,
}

impl<C> IssueHelper<C> {
    /// A helper that knows no issue yet.
    pub fn new(client: C) -> (r: Self)
        ensures
            r.client == client,
            r.issue_store@ == Map::<Seq<char>, Issue>::empty(),
    {
        let issue_store: StringHashMap<Issue> = StringHashMap::new();
        IssueHelper { client, issue_store }
    }

    /// Whether an issue titled like `req` is known.
    fn known(&self, req: &IssueReq) -> (r: UniqueAction)
        ensures
            r == known_action(self.issue_store@, req.title@),
    {
        if self.issue_store.contains_key(req.title.as_str()) {
            UniqueAction::Done
        } else {
            UniqueAction::CreateIssue
        }
    }

    /// One step of filing `req` unless an issue with its title exists.
    ///
    /// The repository is listed only while the store is empty; every listed
    /// issue is remembered by title. An issue with the requested title stops
    /// the filing; a filed issue is remembered by its title.
    pub fn create_issue_unique(&mut self, req: &IssueReq, event: UniqueEvent) -> (r: UniqueAction)
        ensures
            final(self).client == old(self).client,
            event is Start ==> {
                &&& final(self).issue_store@ == old(self).issue_store@
                &&& r == start_action(old(self).issue_store@, req.title@)
                &&& (r == UniqueAction::ListIssues <==> old(self).issue_store@.dom().is_empty())
                &&& (r == UniqueAction::CreateIssue <==> (!old(self).issue_store@.dom().is_empty()
                    && !old(self).issue_store@.contains_key(req.title@)))
            },
            event matches UniqueEvent::Listed(issues) ==> {
                &&& final(self).issue_store@ == with_listed(old(self).issue_store@, issues@)
                &&& r == known_action(final(self).issue_store@, req.title@)
                &&& (r == UniqueAction::CreateIssue <==> (!old(self).issue_store@.contains_key(
                    req.title@,
                ) && forall|i: int|
                    0 <= i < issues@.len() ==> #[trigger] issues@[i].title@ != req.title@))
                &&& (r == UniqueAction::Done || r == UniqueAction::CreateIssue)
            },
            event matches UniqueEvent::Created(issue) ==> {
                &&& final(self).issue_store@ == old(self).issue_store@.insert(issue.title@, issue)
                &&& r == UniqueAction::Done
            },
    {
        match event {
            UniqueEvent::Start => {
                proof {
                    if self.issue_store@.contains_key(req.title@) {
                        assert(self.issue_store@.dom().contains(req.title@));
                    }
                }
                if self.issue_store.is_empty() {
                    UniqueAction::ListIssues
                } else {
                    self.known(req)
                }
            },
            UniqueEvent::Listed(issues) => {
                self.remember_listed(&issues);
                proof {
                    lemma_filing_decisions(old(self).issue_store@, issues@, req.title@);
                }
                self.known(req)
            },
            UniqueEvent::Created(issue) => {
                let title = issue.title.clone();
                self.issue_store.insert(title, issue);
                UniqueAction::Done
            },
        }
    }

    /// Remembers every listed issue by its title, in order.
    fn remember_listed(&mut self, issues: &Vec<Issue>)
        ensures
            final(self).client == old(self).client,
            final(self).issue_store@ == with_listed(old(self).issue_store@, issues@),
    {
        let n = issues.len();
        for i in 0..n
            invariant
                n == issues@.len(),
                self.client == old(self).client,
                self.issue_store@ == with_listed(old(self).issue_store@, issues@.take(i as int)),
        {
            let issue = issues[i].clone();
            let title = issue.title.clone();
            self.issue_store.insert(title, issue);
            assert(issues@.take(i + 1).drop_last() =~= issues@.take(i as int));
        }
        assert(issues@.take(n as int) =~= issues@);
    }

    /// The request that files an issue in `owner/repo` with `token`.
    pub fn create_issue(&self, token: &str, owner: &str, repo: &str) -> (r: Result<
        GithubRequest,
        InvalidHeaderText,
    >)
        ensures
            r is Ok <==> valid_header_text(bearer(token@)),
            r matches Ok(q) ==> {
                &&& q.url@ == spec_issues_url(owner@, repo@)
                &&& carries_api_headers(q.headers, token@)
            },
    {
        let headers = github_headers(token)?;
        Ok(GithubRequest { url: issues_url(owner, repo), headers })
    }

    /// One step of listing the issues of `owner/repo` with `token`, page by
    /// page.
    ///
    /// A token that cannot stand in a header refuses the listing before any
    /// request, whatever step it is at. `None` starts the listing;
    /// `Some(batch)` hands over the issues of the page last asked for. An
    /// empty page ends the listing; any other page is added to the listing
    /// and the next page is asked for. Every page request carries the API
    /// headers for `token`.
    pub fn list_repo_issues(
        &self,
        token: &str,
        owner: &str,
        repo: &str,
        listing: &mut IssueListing,
        batch: Option<Vec<Issue>>,
    ) -> (r: Result<ListingAction, InvalidHeaderText>)
        requires
            batch matches Some(b) ==> (b@.len() > 0 ==> old(listing).page < 0x7fff_ffff),
        ensures
            r is Err <==> !valid_header_text(bearer(token@)),
            r is Err ==> *final(listing) == *old(listing),
            r matches Ok(ListingAction::Fetch(q)) ==> carries_api_headers(q.headers, token@),
            r is Ok ==> batch is None ==> {
                &&& *final(listing) == *old(listing)
                &&& r matches Ok(ListingAction::Fetch(q)) && q.url@ == spec_issues_page_url(
                    owner@,
                    repo@,
                    old(listing).page as nat,
                )
            },
            batch matches Some(b) ==> (r is Ok && b@.len() == 0 ==> {
                &&& *final(listing) == *old(listing)
                &&& r matches Ok(ListingAction::Done)
            }),
            batch matches Some(b) ==> (r is Ok && b@.len() > 0 ==> {
                &&& final(listing).page == old(listing).page + 1
                &&& final(listing).issues@ == old(listing).issues@ + b@
                &&& r matches Ok(ListingAction::Fetch(q)) && q.url@ == spec_issues_page_url(
                    owner@,
                    repo@,
                    final(listing).page as nat,
                )
            }),
    {
        let headers = github_headers(token)?;
        match batch {
            None => Ok(
                ListingAction::Fetch(
                    GithubRequest { url: issues_page_url(owner, repo, listing.page), headers },
                ),
            ),
            Some(b) => {
                if b.len() == 0 {
                    Ok(ListingAction::Done)
                } else {
                    let n = b.len();
                    let ghost before = listing.issues@;
                    for i in 0..n
                        invariant
                            n == b@.len(),
                            listing.page == old(listing).page,
                            listing.issues@ == before + b@.take(i as int),
                    {
                        listing.issues.push(b[i].clone());
                        assert(b@.take(i + 1) =~= b@.take(i as int).push(b@[i as int]));
                    }
                    assert(b@.take(n as int) =~= b@);
                    listing.page = listing.page + 1;
                    let url = issues_page_url(owner, repo, listing.page);
                    Ok(ListingAction::Fetch(GithubRequest { url, headers }))
                }
            },
        }
    }
}

/// Law: listing never forgets an issue: every title known before stays known,
/// and every listed issue is known by its title afterwards.
pub proof fn lemma_listing_keeps_titles(store: Map<Seq<char>, Issue>, issues: Seq<Issue>)
    ensures
        forall|t: Seq<char>| store.contains_key(t) ==> #[trigger] with_listed(store, issues).contains_key(t),
        forall|i: int|
            0 <= i < issues.len() ==> with_listed(store, issues).contains_key(#[trigger] issues[i].title@),
    decreases issues.len(),
{
    if issues.len() > 0 {
        lemma_listing_keeps_titles(store, issues.drop_last());
        assert forall|t: Seq<char>| store.contains_key(t) implies #[trigger] with_listed(
            store,
            issues,
        ).contains_key(t) by {
            assert(with_listed(store, issues.drop_last()).contains_key(t));
        }
        assert forall|i: int| 0 <= i < issues.len() implies with_listed(store, issues).contains_key(
            #[trigger] issues[i].title@,
        ) by {
            if i < issues.len() - 1 {
                assert(issues.drop_last()[i] == issues[i]);
            }
        }
    }
}

/// Law: an issue whose title GitHub already lists is not filed again.
pub proof fn lemma_listed_title_not_filed(
    store: Map<Seq<char>, Issue>,
    issues: Seq<Issue>,
    i: int,
    title: Seq<char>,
)
    requires
        0 <= i < issues.len(),
        issues[i].title@ == title,
    ensures
        known_action(with_listed(store, issues), title) == UniqueAction::Done,
{
    lemma_listing_keeps_titles(store, issues);
}

/// Law: once an issue has been filed, a second request with the same title
/// files nothing: it neither lists nor creates.
pub proof fn lemma_filed_issue_not_filed_again(
    store: Map<Seq<char>, Issue>,
    issue: Issue,
    title: Seq<char>,
)
    requires
        issue.title@ == title,
    ensures
        start_action(store.insert(issue.title@, issue), title) == UniqueAction::Done,
{
    assert(store.insert(issue.title@, issue).contains_key(title));
    assert(!store.insert(issue.title@, issue).is_empty()) by {
        assert(store.insert(issue.title@, issue).dom().contains(title));
    }
}

/// Law: after a listing, the titles known are exactly the titles known
/// before and the titles of the listed issues.
pub proof fn lemma_listing_titles(store: Map<Seq<char>, Issue>, issues: Seq<Issue>)
    ensures
        forall|t: Seq<char>|
            #[trigger] with_listed(store, issues).contains_key(t) <==> (store.contains_key(t)
                || exists|i: int| 0 <= i < issues.len() && issues[i].title@ == t),
    decreases issues.len(),
{
    if issues.len() > 0 {
        let prev = issues.drop_last();
        lemma_listing_titles(store, prev);
        assert forall|t: Seq<char>|
            #[trigger] with_listed(store, issues).contains_key(t) <==> (store.contains_key(t)
                || exists|i: int| 0 <= i < issues.len() && issues[i].title@ == t) by {
            if with_listed(store, issues).contains_key(t) {
                if t != issues.last().title@ {
                    assert(with_listed(store, prev).contains_key(t));
                    if !store.contains_key(t) {
                        let i = choose|i: int| 0 <= i < prev.len() && prev[i].title@ == t;
                        assert(issues[i] == prev[i]);
                    }
                } else {
                    assert(issues[issues.len() - 1].title@ == t);
                }
            }
            if store.contains_key(t) {
                assert(with_listed(store, prev).contains_key(t));
            }
            if exists|i: int| 0 <= i < issues.len() && issues[i].title@ == t {
                let i = choose|i: int| 0 <= i < issues.len() && issues[i].title@ == t;
                if i < issues.len() - 1 {
                    assert(prev[i] == issues[i]);
                    assert(with_listed(store, prev).contains_key(t));
                }
            }
        }
    }
}

/// Law: what a request to file an issue asks for, decided by the titles
/// known: nothing known lists first; otherwise a known title stops the
/// filing and an unknown one is filed. After a listing, the issue is filed
/// exactly when neither the store nor the listing holds its title.
pub proof fn lemma_filing_decisions(store: Map<Seq<char>, Issue>, issues: Seq<Issue>, title: Seq<char>)
    ensures
        store.dom() =~= Set::<Seq<char>>::empty() ==> start_action(store, title) == UniqueAction::ListIssues,
        store.contains_key(title) ==> start_action(store, title) == UniqueAction::Done,
        !(store.dom() =~= Set::<Seq<char>>::empty()) && !store.contains_key(title) ==> start_action(
            store,
            title,
        ) == UniqueAction::CreateIssue,
        known_action(store, title) == UniqueAction::Done <==> store.contains_key(title),
        known_action(store, title) == UniqueAction::CreateIssue <==> !store.contains_key(title),
        known_action(with_listed(store, issues), title) == UniqueAction::CreateIssue <==> (
        !store.contains_key(title) && forall|i: int|
            0 <= i < issues.len() ==> #[trigger] issues[i].title@ != title),
{
    lemma_listing_titles(store, issues);
    if store.contains_key(title) {
        assert(store.dom().contains(title));
        assert(!(store.dom() =~= Set::<Seq<char>>::empty()));
    }
}

/// Law: page addresses differ only in the page number, which ends the
/// address: the address of page `k` is that of page 0 with its last
/// character, the digit 0, replaced by the decimal text of `k`; pages are
/// asked for 50 issues at a time.
pub proof fn lemma_page_address(owner: Seq<char>, repo: Seq<char>, k: nat)
    ensures
        spec_issues_page_url(owner, repo, k) == spec_issues_page_url(owner, repo, 0).drop_last()
            + decimal(k),
        spec_issues_page_url(owner, repo, 0) == "https://api.github.com/repos/"@ + owner + "/"@
            + repo + "/issues?per_page=50&page=0"@,
{
    reveal_strlit("?per_page=");
    reveal_strlit("&page=");
    reveal_strlit("/issues?per_page=50&page=0");
    reveal_strlit("/issues");
    reveal_with_fuel(decimal, 2);
    let head = spec_issues_url(owner, repo) + "?per_page="@ + decimal(50) + "&page="@;
    assert(spec_issues_page_url(owner, repo, 0) =~= head + seq!['0']);
    assert((head + seq!['0']).drop_last() =~= head);
    assert(head + decimal(k) =~= spec_issues_page_url(owner, repo, k));
    assert(decimal(50) =~= seq!['5', '0']);
    assert(spec_issues_page_url(owner, repo, 0) =~= "https://api.github.com/repos/"@ + owner + "/"@
        + repo + "/issues?per_page=50&page=0"@);
}
} // verus!
