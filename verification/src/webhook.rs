//! The webhook endpoints: health probe and push.
//!
//! A push from Harbor is handled in steps. Reading the request body, filing a
//! GitHub issue, reading the issue back and posting the robot message are the
//! caller's part; `push` decides, from the settings, the step it is at and the
//! outcome of the last request, what to do next.

use crate::config::RuntimeConfig;
use crate::pkg::github::issues::{Issue, IssueReq, IssueReqView, IssueResponse};
use crate::pkg::model::harbor::{
    Resource, WebhookEvent, HARBOR_EVENT_TYPE_PULL_ARTIFACT, HARBOR_EVENT_TYPE_PUSH_ARTIFACT,
    HARBOR_EVENT_TYPE_SCANNING_COMPLETED,
};
use crate::pkg::model::wechat;
use crate::pkg::model::CHANNEL_HARBOR;
use crate::text::{
    decimal, lemma_decimal_injective, lemma_middle_determined, lemma_prefix_then_middle, push_decimal,
    same_text,
};
use vstd::prelude::*;

verus! {

/// The health probe's answer.
pub fn index() -> (s: &'static str)
    ensures
        s@ == "ok!"@,
{
    "ok!"
}

/// The status that a push is answered with.
#[derive(Debug, Clone, Copy, PartialEq, Eq)]
pub enum PushStatus {
    Success,
    Failure,
}

impl PushStatus {
    /// The status as the response body spells it.
    pub fn as_str(&self) -> (s: &'static str)
        ensures
            s@ == (match self {
                PushStatus::Success => "ok"@,
                PushStatus::Failure => "failed"@,
            }),
    {
        match self {
            PushStatus::Success => "ok",
            PushStatus::Failure => "failed",
        }
    }
}

/// The event types that are reported; any other event is acknowledged only.
pub open spec fn is_reported_event(event_type: Seq<char>) -> bool {
    event_type == HARBOR_EVENT_TYPE_SCANNING_COMPLETED@ || event_type
        == HARBOR_EVENT_TYPE_PUSH_ARTIFACT@ || event_type == HARBOR_EVENT_TYPE_PULL_ARTIFACT@
}

/// The markdown message about an event and its first artifact.
pub open spec fn harbor_content(event: WebhookEvent, resource: Resource) -> Seq<char> {
    let summary = resource.scan_overview.report_v1.summary;
    "<font color=\\\"info\\\">harbor</font>\n事件：<font color=\\\"info\\\">"@ + event.event_type@
        + "</font>\n仓库：<font color=\\\"info\\\">"@ + event.event_data.repository.repo_full_name@
        + "</font>\n镜像：["@ + resource.resource_url@ + "]("@ + resource.resource_url@
        + ")\n扫描结果: <font color=\\\"info\\\">"@ + decimal(summary.total as nat) + "总计-"@
        + decimal(summary.fixable as nat) + "可修复</font>\n操作者：<font color=\\\"info\\\">"@
        + event.operator@ + "</font>\n"@
}

/// The title of the issue filed about an event and its first artifact.
pub open spec fn issue_title(event: WebhookEvent, resource: Resource) -> Seq<char> {
    let summary = resource.scan_overview.report_v1.summary;
    event.event_data.repository.name@ + "扫描出CVE漏洞"@ + decimal(summary.total as nat)
        + "总计-"@ + decimal(summary.fixable as nat) + "可修复"@
}

/// The body of the issue filed about an artifact.
pub open spec fn issue_body(resource: Resource) -> Seq<char> {
    let summary = resource.scan_overview.report_v1.summary;
    "镜像: "@ + resource.resource_url@ + "\n\n扫描结果: "@ + decimal(summary.total as nat)
        + "总计-"@ + decimal(summary.fixable as nat) + "可修复\n\nHigh: "@ + decimal(
        summary.summary.high as nat,
    ) + "\nMedium: "@ + decimal(summary.summary.medium as nat) + "\nLow: "@ + decimal(
        summary.summary.low as nat,
    )
}

/// The issue filed about an event: assigned to the repository owner and
/// labelled as a bug.
pub open spec fn issue_request(event: WebhookEvent, resource: Resource, owner: Seq<char>) -> IssueReqView {
    IssueReqView {
        title: issue_title(event, resource),
        body: issue_body(resource),
        assignees: seq![owner],
        milestone: None,
        labels: seq!["bug"@],
    }
}

/// The line that links the filed issue into the message.
pub open spec fn issue_link(number: u64, html_url: Seq<char>) -> Seq<char> {
    "GitHub: [issue #"@ + decimal(number as nat) + "]("@ + html_url + ")\n"@
}

/// The markdown message about an event and its first artifact.
pub fn harbor_message(event: &WebhookEvent, resource: &Resource) -> (s: String)
    ensures
        s@ == harbor_content(*event, *resource),
{
    let summary = &resource.scan_overview.report_v1.summary;
    let mut s = String::from_str("<font color=\\\"info\\\">harbor</font>\n事件：<font color=\\\"info\\\">");
    s.append(event.event_type.as_str());
    s.append("</font>\n仓库：<font color=\\\"info\\\">");
    s.append(event.event_data.repository.repo_full_name.as_str());
    s.append("</font>\n镜像：[");
    s.append(resource.resource_url.as_str());
    s.append("](");
    s.append(resource.resource_url.as_str());
    s.append(")\n扫描结果: <font color=\\\"info\\\">");
    push_decimal(&mut s, summary.total);
    s.append("总计-");
    push_decimal(&mut s, summary.fixable);
    s.append("可修复</font>\n操作者：<font color=\\\"info\\\">");
    s.append(event.operator.as_str());
    s.append("</font>\n");
    assert(s@ =~= harbor_content(*event, *resource));
    s
}

/// The issue filed about an event and its first artifact.
pub fn build_issue_request(event: &WebhookEvent, resource: &Resource, owner: &String) -> (r: IssueReq)
    ensures
        r@ == issue_request(*event, *resource, owner@),
{
    let summary = &resource.scan_overview.report_v1.summary;
    let mut title = event.event_data.repository.name.clone();
    title.append("扫描出CVE漏洞");
    push_decimal(&mut title, summary.total);
    title.append("总计-");
    push_decimal(&mut title, summary.fixable);
    title.append("可修复");
    assert(title@ =~= issue_title(*event, *resource));
    let mut body = String::from_str("镜像: ");
    body.append(resource.resource_url.as_str());
    body.append("\n\n扫描结果: ");
    push_decimal(&mut body, summary.total);
    body.append("总计-");
    push_decimal(&mut body, summary.fixable);
    body.append("可修复\n\nHigh: ");
    push_decimal(&mut body, summary.summary.high);
    body.append("\nMedium: ");
    push_decimal(&mut body, summary.summary.medium);
    body.append("\nLow: ");
    push_decimal(&mut body, summary.summary.low);
    assert(body@ =~= issue_body(*resource));
    let mut assignees: Vec<String> = Vec::new();
    assignees.push(owner.clone());
    let mut labels: Vec<String> = Vec::new();
    labels.push(String::from_str("bug"));
    let r = IssueReq { title, body, assignees, milestone: None, labels };
    assert(r.assignees.deep_view() =~= seq![owner@]);
    assert(r.labels.deep_view() =~= seq!["bug"@]);
    r
}

/// A message text followed by the line that links the filed issue.
pub fn with_issue_link(content: &String, number: u64, html_url: &String) -> (s: String)
    ensures
        s@ == content@ + issue_link(number, html_url@),
{
    let mut s = content.clone();
    s.append("GitHub: [issue #");
    push_decimal(&mut s, number);
    s.append("](");
    s.append(html_url.as_str());
    s.append(")\n");
    assert(s@ =~= content@ + issue_link(number, html_url@));
    s
}

/// The robot message that carries `content` as markdown.
pub fn markdown_message(content: String) -> (m: wechat::WebhookEvent)
    ensures
        m@.msg_type == "markdown"@,
        m@.content == content@,
{
    wechat::WebhookEvent {
        msg_type: String::from_str("markdown"),
        markdown: wechat::MarkDown { content },
    }
}

/// How far a push has come: the request it waits an answer for.
#[derive(Debug)]
pub enum PushStage {
    /// Nothing has been looked at.
    Start,
    /// The event in the request body was asked for.
    ReadingEvent,
    /// An issue was asked to be filed; `content` is the message so far.
    CreatingIssue { content: String },
    /// The filed issue was asked to be read back.
    FetchingIssue { content: String, number: u64 },
    /// The robot message was asked to be posted.
    Notifying,
    /// The push has been answered.
    Finished,
}

/// The answer to the last request.
#[derive(Debug)]
pub enum PushEvent {
    /// A push arrived on `channel`.
    Request { channel: String },
    /// The body was read and parsed as a Harbor event; `None` when reading
    /// or parsing failed.
    EventRead(Option<WebhookEvent>),
    /// GitHub answered the filing with the issue; `None` when it failed.
    IssueCreated(Option<Issue>),
    /// The filed issue was read back; `None` when it failed.
    IssueFetched(Option<IssueResponse>),
    /// Whether the robot message was posted.
    Notified(bool),
}

/// The next request of a push, or its answer.
#[derive(Debug)]
pub enum PushAction {
    /// Read at most 1 MiB of body and parse it as a Harbor event.
    ReadEvent,
    /// File this issue in the configured repository.
    CreateIssue(IssueReq),
    /// Read back the issue at this API address.
    FetchIssue(String),
    /// Post this robot message to this address.
    Notify { url: String, message: wechat::WebhookEvent },
    /// Answer the push.
    Respond(PushStatus),
}

/// A push stage, as text.
pub enum PushStageView {
    Start,
    ReadingEvent,
    CreatingIssue(Seq<char>),
    FetchingIssue(Seq<char>, u64),
    Notifying,
    Finished,
}

impl View for PushStage {
    type V = PushStageView;

    open spec fn view(&self) -> PushStageView {
        match self {
            PushStage::Start => PushStageView::Start,
            PushStage::ReadingEvent => PushStageView::ReadingEvent,
            PushStage::CreatingIssue { content } => PushStageView::CreatingIssue(content@),
            PushStage::FetchingIssue { content, number } => PushStageView::FetchingIssue(
                content@,
                *number,
            ),
            PushStage::Notifying => PushStageView::Notifying,
            PushStage::Finished => PushStageView::Finished,
        }
    }
}

/// A push action, as text.
pub enum PushActionView {
    ReadEvent,
    CreateIssue(IssueReqView),
    FetchIssue(Seq<char>),
    Notify(Seq<char>, wechat::WebhookEventView),
    Respond(PushStatus),
}

impl View for PushAction {
    type V = PushActionView;

    open spec fn view(&self) -> PushActionView {
        match self {
            PushAction::ReadEvent => PushActionView::ReadEvent,
            PushAction::CreateIssue(r) => PushActionView::CreateIssue(r@),
            PushAction::FetchIssue(u) => PushActionView::FetchIssue(u@),
            PushAction::Notify { url, message } => PushActionView::Notify(url@, message@),
            PushAction::Respond(s) => PushActionView::Respond(*s),
        }
    }
}

/// The push is answered with `status`.
pub open spec fn answered(status: PushStatus) -> (PushStageView, PushActionView) {
    (PushStageView::Finished, PushActionView::Respond(status))
}

/// Post `content` to the configured robot.
pub open spec fn notify(config: RuntimeConfig, content: Seq<char>) -> (PushStageView, PushActionView) {
    (
        PushStageView::Notifying,
        PushActionView::Notify(
            config.notification.url@,
            wechat::WebhookEventView { msg_type: "markdown"@, content },
        ),
    )
}

/// What follows once the Harbor event has been read.
pub open spec fn after_event(config: RuntimeConfig, event: WebhookEvent) -> (
    PushStageView,
    PushActionView,
) {
    if !is_reported_event(event.event_type@) {
        answered(PushStatus::Success)
    } else if event.event_data.resources@.len() == 0 {
        answered(PushStatus::Success)
    } else {
        let resource = event.event_data.resources@[0];
        if resource.scan_overview.report_v1.summary.total == 0 {
            answered(PushStatus::Success)
        } else if event.event_type@ == HARBOR_EVENT_TYPE_SCANNING_COMPLETED@ {
            (
                PushStageView::CreatingIssue(harbor_content(event, resource)),
                PushActionView::CreateIssue(issue_request(event, resource, config.github.owner@)),
            )
        } else {
            notify(config, harbor_content(event, resource))
        }
    }
}

/// One step of a push: what follows `stage` when `event` answers it.
pub open spec fn push_step(config: RuntimeConfig, stage: PushStageView, event: PushEvent) -> (
    PushStageView,
    PushActionView,
) {
    match (stage, event) {
        (PushStageView::Start, PushEvent::Request { channel }) => if channel@ == CHANNEL_HARBOR@ {
            (PushStageView::ReadingEvent, PushActionView::ReadEvent)
        } else {
            answered(PushStatus::Failure)
        },
        (PushStageView::ReadingEvent, PushEvent::EventRead(Some(ev))) => after_event(config, ev),
        (PushStageView::CreatingIssue(content), PushEvent::IssueCreated(Some(issue))) => (
            PushStageView::FetchingIssue(content, issue.number),
            PushActionView::FetchIssue(issue.url@),
        ),
        (
            PushStageView::FetchingIssue(content, number),
            PushEvent::IssueFetched(Some(meta)),
        ) => notify(config, content + issue_link(number, meta.html_url@)),
        (PushStageView::Notifying, PushEvent::Notified(true)) => answered(PushStatus::Success),
        _ => answered(PushStatus::Failure),
    }
}

fn answer(status: PushStatus) -> (r: (PushStage, PushAction))
    ensures
        (r.0@, r.1@) == answered(status),
{
    (PushStage::Finished, PushAction::Respond(status))
}

fn notify_robot(config: &RuntimeConfig, content: String) -> (r: (PushStage, PushAction))
    ensures
        (r.0@, r.1@) == notify(*config, content@),
{
    let message = markdown_message(content);
    (PushStage::Notifying, PushAction::Notify { url: config.notification.url.clone(), message })
}

fn event_read(config: &RuntimeConfig, event: &WebhookEvent) -> (r: (PushStage, PushAction))
    ensures
        (r.0@, r.1@) == after_event(*config, *event),
{
    let scanning_completed = same_text(
        event.event_type.as_str(),
        HARBOR_EVENT_TYPE_SCANNING_COMPLETED,
    );
    let reported = scanning_completed || same_text(
        event.event_type.as_str(),
        HARBOR_EVENT_TYPE_PUSH_ARTIFACT,
    ) || same_text(event.event_type.as_str(), HARBOR_EVENT_TYPE_PULL_ARTIFACT);
    if !reported {
        return answer(PushStatus::Success);
    }
    if event.event_data.resources.len() == 0 {
        return answer(PushStatus::Success);
    }
    let resource = &event.event_data.resources[0];
    if resource.scan_overview.report_v1.summary.total == 0 {
        return answer(PushStatus::Success);
    }
    let content = harbor_message(event, resource);
    if scanning_completed {
        let request = build_issue_request(event, resource, &config.github.owner);
        (PushStage::CreatingIssue { content }, PushAction::CreateIssue(request))
    } else {
        notify_robot(config, content)
    }
}

/// Handles a push, one outside request at a time.
///
/// Only the Harbor channel is served. Events other than a finished scan, a
/// pushed or a pulled artifact, events without artifacts and artifacts
/// without findings are acknowledged without a message. A finished scan with
/// findings is filed as a GitHub issue first, and the message links it. Any
/// request that fails, and an answer that does not fit the stage, answers
/// the push as failed.
pub fn push(config: &RuntimeConfig, stage: PushStage, event: PushEvent) -> (r: (PushStage, PushAction))
    ensures
        (r.0@, r.1@) == push_step(*config, stage@, event),
{
    match (stage, event) {
        (PushStage::Start, PushEvent::Request { channel }) => {
            if same_text(channel.as_str(), CHANNEL_HARBOR) {
                (PushStage::ReadingEvent, PushAction::ReadEvent)
            } else {
                answer(PushStatus::Failure)
            }
        },
        (PushStage::ReadingEvent, PushEvent::EventRead(Some(ev))) => event_read(config, &ev),
        (PushStage::CreatingIssue { content }, PushEvent::IssueCreated(Some(issue))) => {
            (
                PushStage::FetchingIssue { content, number: issue.number },
                PushAction::FetchIssue(issue.url),
            )
        },
        (PushStage::FetchingIssue { content, number }, PushEvent::IssueFetched(Some(meta))) => {
            notify_robot(config, with_issue_link(&content, number, &meta.html_url))
        },
        (PushStage::Notifying, PushEvent::Notified(true)) => answer(PushStatus::Success),
        _ => answer(PushStatus::Failure),
    }
}


/// Law: an issue is requested only right after a Harbor event was read, and
/// only for a finished scan whose first artifact has findings.
pub proof fn lemma_issue_only_for_finished_scans(
    config: RuntimeConfig,
    stage: PushStageView,
    event: PushEvent,
)
    ensures
        push_step(config, stage, event).1 is CreateIssue ==> {
            &&& stage is ReadingEvent
            &&& event matches PushEvent::EventRead(Some(ev)) && {
                &&& ev.event_type@ == HARBOR_EVENT_TYPE_SCANNING_COMPLETED@
                &&& ev.event_data.resources@.len() > 0
                &&& ev.event_data.resources@[0].scan_overview.report_v1.summary.total > 0
            }
        },
{
}

/// Law: a robot message always starts with the report on the event, and is
/// sent only for a reported event whose first artifact has findings.
pub proof fn lemma_message_reports_the_event(config: RuntimeConfig, event: WebhookEvent)
    ensures
        after_event(config, event).1 matches PushActionView::Notify(url, message) ==> {
            &&& url == config.notification.url@
            &&& message.msg_type == "markdown"@
            &&& message.content == harbor_content(event, event.event_data.resources@[0])
            &&& is_reported_event(event.event_type@)
            &&& event.event_data.resources@[0].scan_overview.report_v1.summary.total > 0
        },
        !is_reported_event(event.event_type@) ==> after_event(config, event) == answered(
            PushStatus::Success,
        ),
{
}

/// Law: whenever reading the body, filing the issue, reading it back or
/// posting the message fails, the push is answered as failed and nothing
/// further is requested.
pub proof fn lemma_failures_fail_the_push(config: RuntimeConfig, stage: PushStageView, event: PushEvent)
    requires
        event matches PushEvent::EventRead(None) || event matches PushEvent::IssueCreated(None)
            || event matches PushEvent::IssueFetched(None) || event matches PushEvent::Notified(false),
    ensures
        push_step(config, stage, event) == answered(PushStatus::Failure),
{
}

/// Law: a finished scan with findings, when every outside request succeeds,
/// is filed as one issue, announced in one message that ends with the link to
/// that issue, and answered with success.
pub proof fn lemma_finished_scan_run(
    config: RuntimeConfig,
    channel: String,
    event: WebhookEvent,
    issue: Issue,
    meta: IssueResponse,
)
    requires
        channel@ == CHANNEL_HARBOR@,
        event.event_type@ == HARBOR_EVENT_TYPE_SCANNING_COMPLETED@,
        event.event_data.resources@.len() > 0,
        event.event_data.resources@[0].scan_overview.report_v1.summary.total > 0,
    ensures
        ({
            let resource = event.event_data.resources@[0];
            let content = harbor_content(event, resource);
            &&& push_step(config, PushStageView::Start, PushEvent::Request { channel }) == (
                PushStageView::ReadingEvent,
                PushActionView::ReadEvent,
            )
            &&& push_step(config, PushStageView::ReadingEvent, PushEvent::EventRead(Some(event)))
                == (
                PushStageView::CreatingIssue(content),
                PushActionView::CreateIssue(issue_request(event, resource, config.github.owner@)),
            )
            &&& push_step(
                config,
                PushStageView::CreatingIssue(content),
                PushEvent::IssueCreated(Some(issue)),
            ) == (
                PushStageView::FetchingIssue(content, issue.number),
                PushActionView::FetchIssue(issue.url@),
            )
            &&& push_step(
                config,
                PushStageView::FetchingIssue(content, issue.number),
                PushEvent::IssueFetched(Some(meta)),
            ) == notify(config, content + issue_link(issue.number, meta.html_url@))
            &&& push_step(config, PushStageView::Notifying, PushEvent::Notified(true)) == answered(
                PushStatus::Success,
            )
        }),
{
    assert(is_reported_event(event.event_type@));
}

/// Law: a pushed or pulled artifact with findings, when the message is
/// posted, is announced without filing any issue and answered with success.
pub proof fn lemma_artifact_run(config: RuntimeConfig, event: WebhookEvent)
    requires
        event.event_type@ == HARBOR_EVENT_TYPE_PUSH_ARTIFACT@ || event.event_type@
            == HARBOR_EVENT_TYPE_PULL_ARTIFACT@,
        event.event_data.resources@.len() > 0,
        event.event_data.resources@[0].scan_overview.report_v1.summary.total > 0,
    ensures
        push_step(config, PushStageView::ReadingEvent, PushEvent::EventRead(Some(event))) == notify(
            config,
            harbor_content(event, event.event_data.resources@[0]),
        ),
        push_step(config, PushStageView::Notifying, PushEvent::Notified(true)) == answered(
            PushStatus::Success,
        ),
{
    reveal_strlit("SCANNING_COMPLETED");
    reveal_strlit("PUSH_ARTIFACT");
    reveal_strlit("PULL_ARTIFACT");
    assert(event.event_type@ != HARBOR_EVENT_TYPE_SCANNING_COMPLETED@) by {
        if event.event_type@ == HARBOR_EVENT_TYPE_PUSH_ARTIFACT@ {
            assert(event.event_type@[1] != HARBOR_EVENT_TYPE_SCANNING_COMPLETED@[1]);
        } else {
            assert(event.event_type@[1] != HARBOR_EVENT_TYPE_SCANNING_COMPLETED@[1]);
        }
    }
}

/// Law: a Harbor event that was read never fails the push; a reported event
/// (a finished scan, a pushed or a pulled artifact) without artifacts, or
/// whose first artifact has no findings, is answered "ok" with nothing sent.
pub proof fn lemma_no_findings_acknowledged(config: RuntimeConfig, event: WebhookEvent)
    ensures
        push_step(config, PushStageView::ReadingEvent, PushEvent::EventRead(Some(event))).1
            != PushActionView::Respond(PushStatus::Failure),
        (event.event_type@ == "SCANNING_COMPLETED"@ || event.event_type@ == "PUSH_ARTIFACT"@
            || event.event_type@ == "PULL_ARTIFACT"@) && (event.event_data.resources@.len() == 0
            || event.event_data.resources@[0].scan_overview.report_v1.summary.total == 0)
            ==> push_step(config, PushStageView::ReadingEvent, PushEvent::EventRead(Some(event)))
            == (PushStageView::Finished, PushActionView::Respond(PushStatus::Success)),
{
}

/// Law: the message about an artifact depends on its counts only through the
/// total and the fixable count: the per-severity counts do not change it.
pub proof fn lemma_message_ignores_severities(event: WebhookEvent, r1: Resource, r2: Resource)
    requires
        r1.resource_url@ == r2.resource_url@,
        r1.scan_overview.report_v1.summary.total == r2.scan_overview.report_v1.summary.total,
        r1.scan_overview.report_v1.summary.fixable == r2.scan_overview.report_v1.summary.fixable,
    ensures
        harbor_content(event, r1) == harbor_content(event, r2),
{
}

/// Law: the message states the total and the fixable count: two artifacts
/// at the same address whose totals, or whose fixable counts, differ get
/// different messages.
pub proof fn lemma_message_shows_counts(event: WebhookEvent, r1: Resource, r2: Resource)
    requires
        r1.resource_url@ == r2.resource_url@,
    ensures
        r1.scan_overview.report_v1.summary.fixable == r2.scan_overview.report_v1.summary.fixable
            && r1.scan_overview.report_v1.summary.total != r2.scan_overview.report_v1.summary.total
            ==> harbor_content(event, r1) != harbor_content(event, r2),
        r1.scan_overview.report_v1.summary.total == r2.scan_overview.report_v1.summary.total
            && r1.scan_overview.report_v1.summary.fixable != r2.scan_overview.report_v1.summary.fixable
            ==> harbor_content(event, r1) != harbor_content(event, r2),
{
    let s1 = r1.scan_overview.report_v1.summary;
    let s2 = r2.scan_overview.report_v1.summary;
    let url = r1.resource_url@;
    let head = "<font color=\\\"info\\\">harbor</font>\n事件：<font color=\\\"info\\\">"@ + event.event_type@
        + "</font>\n仓库：<font color=\\\"info\\\">"@ + event.event_data.repository.repo_full_name@
        + "</font>\n镜像：["@ + url + "]("@ + url + ")\n扫描结果: <font color=\\\"info\\\">"@;
    let tail = "可修复</font>\n操作者：<font color=\\\"info\\\">"@ + event.operator@ + "</font>\n"@;
    if s1.fixable == s2.fixable && s1.total != s2.total {
        let q = "总计-"@ + decimal(s1.fixable as nat) + tail;
        assert(harbor_content(event, r1) =~= head + decimal(s1.total as nat) + q);
        assert(harbor_content(event, r2) =~= head + decimal(s2.total as nat) + q);
        if harbor_content(event, r1) == harbor_content(event, r2) {
            lemma_middle_determined(head, decimal(s1.total as nat), decimal(s2.total as nat), q);
            lemma_decimal_injective(s1.total as nat, s2.total as nat);
        }
    }
    if s1.total == s2.total && s1.fixable != s2.fixable {
        let p = head + decimal(s1.total as nat) + "总计-"@;
        assert(harbor_content(event, r1) =~= p + decimal(s1.fixable as nat) + tail);
        assert(harbor_content(event, r2) =~= p + decimal(s2.fixable as nat) + tail);
        if harbor_content(event, r1) == harbor_content(event, r2) {
            lemma_middle_determined(p, decimal(s1.fixable as nat), decimal(s2.fixable as nat), tail);
            lemma_decimal_injective(s1.fixable as nat, s2.fixable as nat);
        }
    }
}

/// Law: the issue title depends on the artifact only through its total and
/// fixable counts, not on the per-severity counts.
pub proof fn lemma_title_ignores_severities(event: WebhookEvent, r1: Resource, r2: Resource)
    requires
        r1.scan_overview.report_v1.summary.total == r2.scan_overview.report_v1.summary.total,
        r1.scan_overview.report_v1.summary.fixable == r2.scan_overview.report_v1.summary.fixable,
    ensures
        issue_title(event, r1) == issue_title(event, r2),
{
}

/// Law: the issue title states the total and the fixable count: artifacts
/// whose totals, or whose fixable counts, differ get different titles.
pub proof fn lemma_title_shows_counts(event: WebhookEvent, r1: Resource, r2: Resource)
    ensures
        r1.scan_overview.report_v1.summary.fixable == r2.scan_overview.report_v1.summary.fixable
            && r1.scan_overview.report_v1.summary.total != r2.scan_overview.report_v1.summary.total
            ==> issue_title(event, r1) != issue_title(event, r2),
        r1.scan_overview.report_v1.summary.total == r2.scan_overview.report_v1.summary.total
            && r1.scan_overview.report_v1.summary.fixable != r2.scan_overview.report_v1.summary.fixable
            ==> issue_title(event, r1) != issue_title(event, r2),
{
    let s1 = r1.scan_overview.report_v1.summary;
    let s2 = r2.scan_overview.report_v1.summary;
    let head = event.event_data.repository.name@ + "扫描出CVE漏洞"@;
    let tail = "可修复"@;
    if s1.fixable == s2.fixable && s1.total != s2.total {
        let q = "总计-"@ + decimal(s1.fixable as nat) + tail;
        assert(issue_title(event, r1) =~= head + decimal(s1.total as nat) + q);
        assert(issue_title(event, r2) =~= head + decimal(s2.total as nat) + q);
        if issue_title(event, r1) == issue_title(event, r2) {
            lemma_middle_determined(head, decimal(s1.total as nat), decimal(s2.total as nat), q);
            lemma_decimal_injective(s1.total as nat, s2.total as nat);
        }
    }
    if s1.total == s2.total && s1.fixable != s2.fixable {
        let p = head + decimal(s1.total as nat) + "总计-"@;
        assert(issue_title(event, r1) =~= p + decimal(s1.fixable as nat) + tail);
        assert(issue_title(event, r2) =~= p + decimal(s2.fixable as nat) + tail);
        if issue_title(event, r1) == issue_title(event, r2) {
            lemma_middle_determined(p, decimal(s1.fixable as nat), decimal(s2.fixable as nat), tail);
            lemma_decimal_injective(s1.fixable as nat, s2.fixable as nat);
        }
    }
}

/// Law: only the Harbor channel is served; a push on any other channel is
/// answered as failed at once.
pub proof fn lemma_channel(config: RuntimeConfig, channel: String)
    ensures
        channel@ == "harbor"@ ==> push_step(
            config,
            PushStageView::Start,
            PushEvent::Request { channel },
        ) == (PushStageView::ReadingEvent, PushActionView::ReadEvent),
        channel@ != "harbor"@ ==> push_step(
            config,
            PushStageView::Start,
            PushEvent::Request { channel },
        ) == (PushStageView::Finished, PushActionView::Respond(PushStatus::Failure)),
{
}

/// Law: an event whose first artifact has findings is reported: a finished
/// scan by filing an issue (titled and described from the artifact, assigned
/// to the owner, labelled "bug") and keeping the message for later; a pushed
/// or pulled artifact by posting the message to the configured robot; any
/// other event is only acknowledged.
pub proof fn lemma_findings_reported(config: RuntimeConfig, event: WebhookEvent)
    requires
        event.event_data.resources@.len() > 0,
        event.event_data.resources@[0].scan_overview.report_v1.summary.total > 0,
    ensures
        ({
            let r0 = event.event_data.resources@[0];
            let step = push_step(config, PushStageView::ReadingEvent, PushEvent::EventRead(Some(event)));
            &&& event.event_type@ == "SCANNING_COMPLETED"@ ==> step == (
                PushStageView::CreatingIssue(harbor_content(event, r0)),
                PushActionView::CreateIssue(
                    IssueReqView {
                        title: issue_title(event, r0),
                        body: issue_body(r0),
                        assignees: seq![config.github.owner@],
                        milestone: None,
                        labels: seq!["bug"@],
                    },
                ),
            )
            &&& event.event_type@ == "PUSH_ARTIFACT"@ || event.event_type@ == "PULL_ARTIFACT"@
                ==> step == (
                PushStageView::Notifying,
                PushActionView::Notify(
                    config.notification.url@,
                    wechat::WebhookEventView { msg_type: "markdown"@, content: harbor_content(event, r0) },
                ),
            )
            &&& !(event.event_type@ == "SCANNING_COMPLETED"@ || event.event_type@ == "PUSH_ARTIFACT"@
                || event.event_type@ == "PULL_ARTIFACT"@) ==> step == (
                PushStageView::Finished,
                PushActionView::Respond(PushStatus::Success),
            )
        }),
{
    reveal_strlit("SCANNING_COMPLETED");
    reveal_strlit("PUSH_ARTIFACT");
    reveal_strlit("PULL_ARTIFACT");
    if event.event_type@ == "PUSH_ARTIFACT"@ || event.event_type@ == "PULL_ARTIFACT"@ {
        assert(event.event_type@[1] != "SCANNING_COMPLETED"@[1]);
    }
}

/// Law: once an issue is filed, it is read back at the address GitHub gave,
/// keeping the message and the issue's number; once read back, the message
/// followed by the link line is posted to the configured robot as markdown.
pub proof fn lemma_issue_steps(
    config: RuntimeConfig,
    content: Seq<char>,
    number: u64,
    issue: Issue,
    meta: IssueResponse,
)
    ensures
        push_step(config, PushStageView::CreatingIssue(content), PushEvent::IssueCreated(Some(issue)))
            == (PushStageView::FetchingIssue(content, issue.number), PushActionView::FetchIssue(issue.url@)),
        push_step(
            config,
            PushStageView::FetchingIssue(content, number),
            PushEvent::IssueFetched(Some(meta)),
        ) == (
            PushStageView::Notifying,
            PushActionView::Notify(
                config.notification.url@,
                wechat::WebhookEventView {
                    msg_type: "markdown"@,
                    content: content + issue_link(number, meta.html_url@),
                },
            ),
        ),
{
}

/// Law: a posted message answers the push "ok"; a message that could not be
/// posted answers it "failed".
pub proof fn lemma_notified(config: RuntimeConfig, posted: bool)
    ensures
        push_step(config, PushStageView::Notifying, PushEvent::Notified(posted)) == (
            PushStageView::Finished,
            PushActionView::Respond(if posted { PushStatus::Success } else { PushStatus::Failure }),
        ),
{
}

/// Law: the link line names the issue's number and its web address:
/// different numbers, or different addresses, give different lines.
pub proof fn lemma_link_shows_issue(n1: u64, n2: u64, u1: Seq<char>, u2: Seq<char>)
    ensures
        n1 != n2 ==> issue_link(n1, u1) != issue_link(n2, u1),
        u1 != u2 ==> issue_link(n1, u1) != issue_link(n1, u2),
{
    let head = "GitHub: [issue #"@;
    let q = "]("@ + u1 + ")\n"@;
    if n1 != n2 {
        assert(issue_link(n1, u1) =~= head + decimal(n1 as nat) + q);
        assert(issue_link(n2, u1) =~= head + decimal(n2 as nat) + q);
        if issue_link(n1, u1) == issue_link(n2, u1) {
            lemma_middle_determined(head, decimal(n1 as nat), decimal(n2 as nat), q);
            lemma_decimal_injective(n1 as nat, n2 as nat);
        }
    }
    if u1 != u2 {
        let p = head + decimal(n1 as nat) + "]("@;
        assert(issue_link(n1, u1) =~= p + u1 + ")\n"@);
        assert(issue_link(n1, u2) =~= p + u2 + ")\n"@);
        if issue_link(n1, u1) == issue_link(n1, u2) {
            lemma_middle_determined(p, u1, u2, ")\n"@);
        }
    }
}

/// The message, split at its parts: the fixed texts between the parts are
/// the same for every event.
proof fn lemma_content_parts(e: WebhookEvent, r: Resource)
    ensures
        harbor_content(e, r) == "<font color=\\\"info\\\">harbor</font>\n事件：<font color=\\\"info\\\">"@
            + e.event_type@ + ("</font>\n仓库：<font color=\\\"info\\\">"@
            + e.event_data.repository.repo_full_name@ + ("</font>\n镜像：["@ + r.resource_url@ + ("]("@
            + r.resource_url@ + (")\n扫描结果: <font color=\\\"info\\\">"@ + decimal(
            r.scan_overview.report_v1.summary.total as nat,
        ) + "总计-"@ + decimal(r.scan_overview.report_v1.summary.fixable as nat)
            + "可修复</font>\n操作者：<font color=\\\"info\\\">"@ + (e.operator@ + "</font>\n"@))))),
{
    let c = harbor_content(e, r);
    assert(c =~= "<font color=\\\"info\\\">harbor</font>\n事件：<font color=\\\"info\\\">"@
        + e.event_type@ + ("</font>\n仓库：<font color=\\\"info\\\">"@
        + e.event_data.repository.repo_full_name@ + ("</font>\n镜像：["@ + r.resource_url@ + ("]("@
        + r.resource_url@ + (")\n扫描结果: <font color=\\\"info\\\">"@ + decimal(
        r.scan_overview.report_v1.summary.total as nat,
    ) + "总计-"@ + decimal(r.scan_overview.report_v1.summary.fixable as nat)
        + "可修复</font>\n操作者：<font color=\\\"info\\\">"@ + (e.operator@ + "</font>\n"@))))));
}

/// Law: the message names the event type: two events that differ only in
/// their type get different messages.
pub proof fn lemma_message_shows_event_type(e1: WebhookEvent, e2: WebhookEvent, r1: Resource, r2: Resource)
    requires
        r1.scan_overview.report_v1.summary.total == r2.scan_overview.report_v1.summary.total,
        r1.scan_overview.report_v1.summary.fixable == r2.scan_overview.report_v1.summary.fixable,
        e1.event_data.repository.repo_full_name@ == e2.event_data.repository.repo_full_name@,
        e1.operator@ == e2.operator@,
        r1.resource_url@ == r2.resource_url@,
        e1.event_type@ != e2.event_type@,
    ensures
        harbor_content(e1, r1) != harbor_content(e2, r2),
{
    let l1 = "<font color=\\\"info\\\">harbor</font>\n事件：<font color=\\\"info\\\">"@;
    let l2 = "</font>\n仓库：<font color=\\\"info\\\">"@;
    let l3 = "</font>\n镜像：["@;
    let l4 = "]("@;
    let l5 = ")\n扫描结果: <font color=\\\"info\\\">"@ + decimal(
        r1.scan_overview.report_v1.summary.total as nat,
    ) + "总计-"@ + decimal(r1.scan_overview.report_v1.summary.fixable as nat)
        + "可修复</font>\n操作者：<font color=\\\"info\\\">"@;
    let l8 = "</font>\n"@;
    let t = e1.event_type@;
    let f = e1.event_data.repository.repo_full_name@;
    let o = e1.operator@;
    lemma_content_parts(e1, r1);
    lemma_content_parts(e2, r2);
    let u = r1.resource_url@;
    let rest = l2 + f + (l3 + u + (l4 + u + (l5 + (o + l8))));
    if harbor_content(e1, r1) == harbor_content(e2, r2) {
        lemma_middle_determined(l1, t, e2.event_type@, rest);
    }
}

/// Law: the message names the repository: two events that differ only in
/// their repository get different messages.
pub proof fn lemma_message_shows_repository(e1: WebhookEvent, e2: WebhookEvent, r1: Resource, r2: Resource)
    requires
        r1.scan_overview.report_v1.summary.total == r2.scan_overview.report_v1.summary.total,
        r1.scan_overview.report_v1.summary.fixable == r2.scan_overview.report_v1.summary.fixable,
        e1.event_type@ == e2.event_type@,
        e1.operator@ == e2.operator@,
        r1.resource_url@ == r2.resource_url@,
        e1.event_data.repository.repo_full_name@ != e2.event_data.repository.repo_full_name@,
    ensures
        harbor_content(e1, r1) != harbor_content(e2, r2),
{
    let l1 = "<font color=\\\"info\\\">harbor</font>\n事件：<font color=\\\"info\\\">"@;
    let l2 = "</font>\n仓库：<font color=\\\"info\\\">"@;
    let l3 = "</font>\n镜像：["@;
    let l4 = "]("@;
    let l5 = ")\n扫描结果: <font color=\\\"info\\\">"@ + decimal(
        r1.scan_overview.report_v1.summary.total as nat,
    ) + "总计-"@ + decimal(r1.scan_overview.report_v1.summary.fixable as nat)
        + "可修复</font>\n操作者：<font color=\\\"info\\\">"@;
    let l8 = "</font>\n"@;
    let t = e1.event_type@;
    let f = e1.event_data.repository.repo_full_name@;
    let o = e1.operator@;
    lemma_content_parts(e1, r1);
    lemma_content_parts(e2, r2);
    let u = r1.resource_url@;
    let rest = l3 + u + (l4 + u + (l5 + (o + l8)));
    if harbor_content(e1, r1) == harbor_content(e2, r2) {
        assert(harbor_content(e1, r1) =~= (l1 + t + l2) + f + rest);
        assert(harbor_content(e2, r2) =~= (l1 + t + l2) + e2.event_data.repository.repo_full_name@ + rest);
        lemma_middle_determined(l1 + t + l2, f, e2.event_data.repository.repo_full_name@, rest);
    }
}

/// Law: the message names the operator: two events that differ only in
/// their operator get different messages.
pub proof fn lemma_message_shows_operator(e1: WebhookEvent, e2: WebhookEvent, r1: Resource, r2: Resource)
    requires
        r1.scan_overview.report_v1.summary.total == r2.scan_overview.report_v1.summary.total,
        r1.scan_overview.report_v1.summary.fixable == r2.scan_overview.report_v1.summary.fixable,
        e1.event_type@ == e2.event_type@,
        e1.event_data.repository.repo_full_name@ == e2.event_data.repository.repo_full_name@,
        r1.resource_url@ == r2.resource_url@,
        e1.operator@ != e2.operator@,
    ensures
        harbor_content(e1, r1) != harbor_content(e2, r2),
{
    let l1 = "<font color=\\\"info\\\">harbor</font>\n事件：<font color=\\\"info\\\">"@;
    let l2 = "</font>\n仓库：<font color=\\\"info\\\">"@;
    let l3 = "</font>\n镜像：["@;
    let l4 = "]("@;
    let l5 = ")\n扫描结果: <font color=\\\"info\\\">"@ + decimal(
        r1.scan_overview.report_v1.summary.total as nat,
    ) + "总计-"@ + decimal(r1.scan_overview.report_v1.summary.fixable as nat)
        + "可修复</font>\n操作者：<font color=\\\"info\\\">"@;
    let l8 = "</font>\n"@;
    let t = e1.event_type@;
    let f = e1.event_data.repository.repo_full_name@;
    let o = e1.operator@;
    lemma_content_parts(e1, r1);
    lemma_content_parts(e2, r2);
    let u = r1.resource_url@;
    let p = l1 + t + l2 + f + l3 + u + l4 + u + l5;
    if harbor_content(e1, r1) == harbor_content(e2, r2) {
        assert(harbor_content(e1, r1) =~= p + o + l8);
        assert(harbor_content(e2, r2) =~= p + e2.operator@ + l8);
        lemma_middle_determined(p, o, e2.operator@, l8);
    }
}

/// Law: the message names the image: two artifacts that differ only in
/// their address get different messages.
pub proof fn lemma_message_shows_image(e1: WebhookEvent, e2: WebhookEvent, r1: Resource, r2: Resource)
    requires
        r1.scan_overview.report_v1.summary.total == r2.scan_overview.report_v1.summary.total,
        r1.scan_overview.report_v1.summary.fixable == r2.scan_overview.report_v1.summary.fixable,
        e1.event_type@ == e2.event_type@,
        e1.event_data.repository.repo_full_name@ == e2.event_data.repository.repo_full_name@,
        e1.operator@ == e2.operator@,
        r1.resource_url@ != r2.resource_url@,
    ensures
        harbor_content(e1, r1) != harbor_content(e2, r2),
{
    let l1 = "<font color=\\\"info\\\">harbor</font>\n事件：<font color=\\\"info\\\">"@;
    let l2 = "</font>\n仓库：<font color=\\\"info\\\">"@;
    let l3 = "</font>\n镜像：["@;
    let l4 = "]("@;
    let l5 = ")\n扫描结果: <font color=\\\"info\\\">"@ + decimal(
        r1.scan_overview.report_v1.summary.total as nat,
    ) + "总计-"@ + decimal(r1.scan_overview.report_v1.summary.fixable as nat)
        + "可修复</font>\n操作者：<font color=\\\"info\\\">"@;
    let l8 = "</font>\n"@;
    let t = e1.event_type@;
    let f = e1.event_data.repository.repo_full_name@;
    let o = e1.operator@;
    lemma_content_parts(e1, r1);
    lemma_content_parts(e2, r2);
    let u1 = r1.resource_url@;
    let u2 = r2.resource_url@;
    let p = l1 + t + l2 + f + l3;
    if harbor_content(e1, r1) == harbor_content(e2, r2) {
        let q1 = l4 + u1 + (l5 + (o + l8));
        let q2 = l4 + u2 + (l5 + (o + l8));
        assert(harbor_content(e1, r1) =~= p + u1 + q1);
        assert(harbor_content(e2, r2) =~= p + u2 + q2);
        assert((p + u1 + q1).len() == (p + u2 + q2).len());
        assert(u1.len() == u2.len());
        lemma_prefix_then_middle(p, u1, u2, q1, q2);
    }
}

/// Law: the issue body states the total count: two artifacts at the same
/// address that differ only in it get different bodies.
pub proof fn lemma_body_shows_total(r1: Resource, r2: Resource)
    requires
        r1.resource_url@ == r2.resource_url@,
        r1.scan_overview.report_v1.summary.fixable == r2.scan_overview.report_v1.summary.fixable,
        r1.scan_overview.report_v1.summary.summary.high == r2.scan_overview.report_v1.summary.summary.high,
        r1.scan_overview.report_v1.summary.summary.medium == r2.scan_overview.report_v1.summary.summary.medium,
        r1.scan_overview.report_v1.summary.summary.low == r2.scan_overview.report_v1.summary.summary.low,
        r1.scan_overview.report_v1.summary.total != r2.scan_overview.report_v1.summary.total,
    ensures
        issue_body(r1) != issue_body(r2),
{
    let u = r1.resource_url@;
    let p = "镜像: "@ + u + "\n\n扫描结果: "@;
    let q = "总计-"@ + decimal(r1.scan_overview.report_v1.summary.fixable as nat) + "可修复\n\nHigh: "@ + decimal(r1.scan_overview.report_v1.summary.summary.high as nat) + "\nMedium: "@ + decimal(r1.scan_overview.report_v1.summary.summary.medium as nat) + "\nLow: "@ + decimal(r1.scan_overview.report_v1.summary.summary.low as nat);
    let x1 = decimal(r1.scan_overview.report_v1.summary.total as nat);
    let x2 = decimal(r2.scan_overview.report_v1.summary.total as nat);
    assert(issue_body(r1) =~= p + x1 + q);
    assert(issue_body(r2) =~= p + x2 + q);
    if issue_body(r1) == issue_body(r2) {
        lemma_middle_determined(p, x1, x2, q);
        lemma_decimal_injective(r1.scan_overview.report_v1.summary.total as nat, r2.scan_overview.report_v1.summary.total as nat);
    }
}

/// Law: the issue body states the fixable count: two artifacts at the same
/// address that differ only in it get different bodies.
pub proof fn lemma_body_shows_fixable(r1: Resource, r2: Resource)
    requires
        r1.resource_url@ == r2.resource_url@,
        r1.scan_overview.report_v1.summary.total == r2.scan_overview.report_v1.summary.total,
        r1.scan_overview.report_v1.summary.summary.high == r2.scan_overview.report_v1.summary.summary.high,
        r1.scan_overview.report_v1.summary.summary.medium == r2.scan_overview.report_v1.summary.summary.medium,
        r1.scan_overview.report_v1.summary.summary.low == r2.scan_overview.report_v1.summary.summary.low,
        r1.scan_overview.report_v1.summary.fixable != r2.scan_overview.report_v1.summary.fixable,
    ensures
        issue_body(r1) != issue_body(r2),
{
    let u = r1.resource_url@;
    let p = "镜像: "@ + u + "\n\n扫描结果: "@ + decimal(r1.scan_overview.report_v1.summary.total as nat) + "总计-"@;
    let q = "可修复\n\nHigh: "@ + decimal(r1.scan_overview.report_v1.summary.summary.high as nat) + "\nMedium: "@ + decimal(r1.scan_overview.report_v1.summary.summary.medium as nat) + "\nLow: "@ + decimal(r1.scan_overview.report_v1.summary.summary.low as nat);
    let x1 = decimal(r1.scan_overview.report_v1.summary.fixable as nat);
    let x2 = decimal(r2.scan_overview.report_v1.summary.fixable as nat);
    assert(issue_body(r1) =~= p + x1 + q);
    assert(issue_body(r2) =~= p + x2 + q);
    if issue_body(r1) == issue_body(r2) {
        lemma_middle_determined(p, x1, x2, q);
        lemma_decimal_injective(r1.scan_overview.report_v1.summary.fixable as nat, r2.scan_overview.report_v1.summary.fixable as nat);
    }
}

/// Law: the issue body states the high count: two artifacts at the same
/// address that differ only in it get different bodies.
pub proof fn lemma_body_shows_high(r1: Resource, r2: Resource)
    requires
        r1.resource_url@ == r2.resource_url@,
        r1.scan_overview.report_v1.summary.total == r2.scan_overview.report_v1.summary.total,
        r1.scan_overview.report_v1.summary.fixable == r2.scan_overview.report_v1.summary.fixable,
        r1.scan_overview.report_v1.summary.summary.medium == r2.scan_overview.report_v1.summary.summary.medium,
        r1.scan_overview.report_v1.summary.summary.low == r2.scan_overview.report_v1.summary.summary.low,
        r1.scan_overview.report_v1.summary.summary.high != r2.scan_overview.report_v1.summary.summary.high,
    ensures
        issue_body(r1) != issue_body(r2),
{
    let u = r1.resource_url@;
    let p = "镜像: "@ + u + "\n\n扫描结果: "@ + decimal(r1.scan_overview.report_v1.summary.total as nat) + "总计-"@ + decimal(r1.scan_overview.report_v1.summary.fixable as nat) + "可修复\n\nHigh: "@;
    let q = "\nMedium: "@ + decimal(r1.scan_overview.report_v1.summary.summary.medium as nat) + "\nLow: "@ + decimal(r1.scan_overview.report_v1.summary.summary.low as nat);
    let x1 = decimal(r1.scan_overview.report_v1.summary.summary.high as nat);
    let x2 = decimal(r2.scan_overview.report_v1.summary.summary.high as nat);
    assert(issue_body(r1) =~= p + x1 + q);
    assert(issue_body(r2) =~= p + x2 + q);
    if issue_body(r1) == issue_body(r2) {
        lemma_middle_determined(p, x1, x2, q);
        lemma_decimal_injective(r1.scan_overview.report_v1.summary.summary.high as nat, r2.scan_overview.report_v1.summary.summary.high as nat);
    }
}

/// Law: the issue body states the medium count: two artifacts at the same
/// address that differ only in it get different bodies.
pub proof fn lemma_body_shows_medium(r1: Resource, r2: Resource)
    requires
        r1.resource_url@ == r2.resource_url@,
        r1.scan_overview.report_v1.summary.total == r2.scan_overview.report_v1.summary.total,
        r1.scan_overview.report_v1.summary.fixable == r2.scan_overview.report_v1.summary.fixable,
        r1.scan_overview.report_v1.summary.summary.high == r2.scan_overview.report_v1.summary.summary.high,
        r1.scan_overview.report_v1.summary.summary.low == r2.scan_overview.report_v1.summary.summary.low,
        r1.scan_overview.report_v1.summary.summary.medium != r2.scan_overview.report_v1.summary.summary.medium,
    ensures
        issue_body(r1) != issue_body(r2),
{
    let u = r1.resource_url@;
    let p = "镜像: "@ + u + "\n\n扫描结果: "@ + decimal(r1.scan_overview.report_v1.summary.total as nat) + "总计-"@ + decimal(r1.scan_overview.report_v1.summary.fixable as nat) + "可修复\n\nHigh: "@ + decimal(r1.scan_overview.report_v1.summary.summary.high as nat) + "\nMedium: "@;
    let q = "\nLow: "@ + decimal(r1.scan_overview.report_v1.summary.summary.low as nat);
    let x1 = decimal(r1.scan_overview.report_v1.summary.summary.medium as nat);
    let x2 = decimal(r2.scan_overview.report_v1.summary.summary.medium as nat);
    assert(issue_body(r1) =~= p + x1 + q);
    assert(issue_body(r2) =~= p + x2 + q);
    if issue_body(r1) == issue_body(r2) {
        lemma_middle_determined(p, x1, x2, q);
        lemma_decimal_injective(r1.scan_overview.report_v1.summary.summary.medium as nat, r2.scan_overview.report_v1.summary.summary.medium as nat);
    }
}

/// Law: the issue body states the low count: two artifacts at the same
/// address that differ only in it get different bodies.
pub proof fn lemma_body_shows_low(r1: Resource, r2: Resource)
    requires
        r1.resource_url@ == r2.resource_url@,
        r1.scan_overview.report_v1.summary.total == r2.scan_overview.report_v1.summary.total,
        r1.scan_overview.report_v1.summary.fixable == r2.scan_overview.report_v1.summary.fixable,
        r1.scan_overview.report_v1.summary.summary.high == r2.scan_overview.report_v1.summary.summary.high,
        r1.scan_overview.report_v1.summary.summary.medium == r2.scan_overview.report_v1.summary.summary.medium,
        r1.scan_overview.report_v1.summary.summary.low != r2.scan_overview.report_v1.summary.summary.low,
    ensures
        issue_body(r1) != issue_body(r2),
{
    let u = r1.resource_url@;
    let p = "镜像: "@ + u + "\n\n扫描结果: "@ + decimal(r1.scan_overview.report_v1.summary.total as nat) + "总计-"@ + decimal(r1.scan_overview.report_v1.summary.fixable as nat) + "可修复\n\nHigh: "@ + decimal(r1.scan_overview.report_v1.summary.summary.high as nat) + "\nMedium: "@ + decimal(r1.scan_overview.report_v1.summary.summary.medium as nat) + "\nLow: "@;
    let q = Seq::<char>::empty();
    let x1 = decimal(r1.scan_overview.report_v1.summary.summary.low as nat);
    let x2 = decimal(r2.scan_overview.report_v1.summary.summary.low as nat);
    assert(issue_body(r1) =~= p + x1 + q);
    assert(issue_body(r2) =~= p + x2 + q);
    if issue_body(r1) == issue_body(r2) {
        lemma_middle_determined(p, x1, x2, q);
        lemma_decimal_injective(r1.scan_overview.report_v1.summary.summary.low as nat, r2.scan_overview.report_v1.summary.summary.low as nat);
    }
}

/// Law: the issue title starts with the repository name, then states the
/// total, then the fixable count, in that order.
pub proof fn lemma_title_order(event: WebhookEvent, r: Resource)
    ensures
        (event.event_data.repository.name@ + "扫描出CVE漏洞"@ + decimal(
            r.scan_overview.report_v1.summary.total as nat,
        ) + "总计-"@ + decimal(r.scan_overview.report_v1.summary.fixable as nat)).is_prefix_of(
            issue_title(event, r),
        ),
{
    let pre = event.event_data.repository.name@ + "扫描出CVE漏洞"@ + decimal(
        r.scan_overview.report_v1.summary.total as nat,
    ) + "总计-"@ + decimal(r.scan_overview.report_v1.summary.fixable as nat);
    assert(issue_title(event, r) =~= pre + "可修复"@);
}

/// Law: in the message, the counts follow the image, the total before the
/// fixable count.
pub proof fn lemma_message_order(event: WebhookEvent, r: Resource)
    ensures
        ("<font color=\\\"info\\\">harbor</font>\n事件：<font color=\\\"info\\\">"@ + event.event_type@
            + "</font>\n仓库：<font color=\\\"info\\\">"@ + event.event_data.repository.repo_full_name@
            + "</font>\n镜像：["@ + r.resource_url@ + "]("@ + r.resource_url@
            + ")\n扫描结果: <font color=\\\"info\\\">"@ + decimal(
            r.scan_overview.report_v1.summary.total as nat,
        ) + "总计-"@ + decimal(r.scan_overview.report_v1.summary.fixable as nat)).is_prefix_of(
            harbor_content(event, r),
        ),
{
    let pre = "<font color=\\\"info\\\">harbor</font>\n事件：<font color=\\\"info\\\">"@ + event.event_type@
        + "</font>\n仓库：<font color=\\\"info\\\">"@ + event.event_data.repository.repo_full_name@
        + "</font>\n镜像：["@ + r.resource_url@ + "]("@ + r.resource_url@
        + ")\n扫描结果: <font color=\\\"info\\\">"@ + decimal(
        r.scan_overview.report_v1.summary.total as nat,
    ) + "总计-"@ + decimal(r.scan_overview.report_v1.summary.fixable as nat);
    assert(harbor_content(event, r) =~= pre + ("可修复</font>\n操作者：<font color=\\\"info\\\">"@
        + event.operator@ + "</font>\n"@));
}
} // verus!
