use common::config::{GithubConfig, Notification, NotifyType, RuntimeConfig};
use common::pkg::github::issues::{Issue, IssueResponse};
use common::pkg::model::harbor::{
    CVESummary, EventData, Repository, Resource, ScanOverview, ScanReport, ScanSummary, WebhookEvent,
};
use common::webhook::{
    build_issue_request, harbor_message, index, markdown_message, push, with_issue_link, PushAction,
    PushEvent, PushStage, PushStatus,
};

fn runtime_config() -> RuntimeConfig {
    RuntimeConfig {
        notification: Notification {
            notify_type: NotifyType::Wechat,
            url: String::from("https://qyapi.weixin.qq.com/cgi-bin/webhook/send?key=k"),
        },
        github: GithubConfig {
            owner: String::from("smartcat999"),
            repo: String::from("issue_auto_report"),
            token: String::from("t"),
        },
    }
}

fn resource(total: u64) -> Resource {
    let mut r = Resource::default();
    r.resource_url = String::from("harbor.local/library/nginx:1.25");
    r.scan_overview = ScanOverview {
        report_v1: ScanReport {
            summary: ScanSummary {
                total,
                fixable: 3,
                summary: CVESummary { high: 2, medium: 4, low: 6 },
            },
            ..ScanReport::default()
        },
    };
    r
}

fn event(event_type: &str, resources: Vec<Resource>) -> WebhookEvent {
    WebhookEvent {
        event_type: String::from(event_type),
        occur_at: 1700000000,
        operator: String::from("admin"),
        event_data: EventData {
            resources,
            repository: Repository {
                date_created: 0,
                name: String::from("nginx"),
                namespace: String::from("library"),
                repo_full_name: String::from("library/nginx"),
                repo_type: String::from("private"),
            },
        },
    }
}

const CONTENT: &str = "<font color=\\\"info\\\">harbor</font>\n事件：<font color=\\\"info\\\">PUSH_ARTIFACT</font>\n仓库：<font color=\\\"info\\\">library/nginx</font>\n镜像：[harbor.local/library/nginx:1.25](harbor.local/library/nginx:1.25)\n扫描结果: <font color=\\\"info\\\">12总计-3可修复</font>\n操作者：<font color=\\\"info\\\">admin</font>\n";

fn read(config: &RuntimeConfig, ev: WebhookEvent) -> (PushStage, PushAction) {
    let (stage, action) = push(config, PushStage::Start, PushEvent::Request { channel: String::from("harbor") });
    assert!(matches!(stage, PushStage::ReadingEvent));
    assert!(matches!(action, PushAction::ReadEvent));
    push(config, stage, PushEvent::EventRead(Some(ev)))
}

fn respond_status(action: PushAction) -> PushStatus {
    match action {
        PushAction::Respond(s) => s,
        other => panic!("expected an answer, got {:?}", other),
    }
}

#[test]
fn health_probe() {
    assert_eq!(index(), "ok!");
    assert_eq!(PushStatus::Success.as_str(), "ok");
    assert_eq!(PushStatus::Failure.as_str(), "failed");
}

#[test]
fn message_text() {
    let ev = event("PUSH_ARTIFACT", vec![resource(12)]);
    assert_eq!(harbor_message(&ev, &ev.event_data.resources[0]), CONTENT);
    let linked = with_issue_link(&String::from("x\n"), 42, &String::from("https://github.com/o/r/issues/42"));
    assert_eq!(linked, "x\nGitHub: [issue #42](https://github.com/o/r/issues/42)\n");
    let m = markdown_message(String::from("hi"));
    assert_eq!(m.msg_type, "markdown");
    assert_eq!(m.markdown.content, "hi");
}

#[test]
fn issue_request_text() {
    let ev = event("SCANNING_COMPLETED", vec![resource(12)]);
    let req = build_issue_request(&ev, &ev.event_data.resources[0], &String::from("smartcat999"));
    assert_eq!(req.title, "nginx扫描出CVE漏洞12总计-3可修复");
    assert_eq!(
        req.body,
        "镜像: harbor.local/library/nginx:1.25\n\n扫描结果: 12总计-3可修复\n\nHigh: 2\nMedium: 4\nLow: 6"
    );
    assert_eq!(req.assignees, vec![String::from("smartcat999")]);
    assert_eq!(req.milestone, None);
    assert_eq!(req.labels, vec![String::from("bug")]);
}

#[test]
fn other_channels_fail() {
    let config = runtime_config();
    let (stage, action) = push(&config, PushStage::Start, PushEvent::Request { channel: String::from("gitlab") });
    assert!(matches!(stage, PushStage::Finished));
    assert_eq!(respond_status(action), PushStatus::Failure);
}

#[test]
fn unreadable_body_fails() {
    let config = runtime_config();
    let (_, action) = push(&config, PushStage::ReadingEvent, PushEvent::EventRead(None));
    assert_eq!(respond_status(action), PushStatus::Failure);
}

#[test]
fn unreported_events_are_acknowledged() {
    let config = runtime_config();
    let (stage, action) = read(&config, event("DELETE_ARTIFACT", vec![resource(12)]));
    assert!(matches!(stage, PushStage::Finished));
    assert_eq!(respond_status(action), PushStatus::Success);
}

#[test]
fn events_without_findings_are_acknowledged() {
    let config = runtime_config();
    let (_, action) = read(&config, event("SCANNING_COMPLETED", vec![]));
    assert_eq!(respond_status(action), PushStatus::Success);
    let (_, action) = read(&config, event("SCANNING_COMPLETED", vec![resource(0), resource(5)]));
    assert_eq!(respond_status(action), PushStatus::Success);
}

#[test]
fn pushed_artifact_is_announced_without_issue() {
    let config = runtime_config();
    let (stage, action) = read(&config, event("PUSH_ARTIFACT", vec![resource(12)]));
    assert!(matches!(stage, PushStage::Notifying));
    match action {
        PushAction::Notify { url, message } => {
            assert_eq!(url, "https://qyapi.weixin.qq.com/cgi-bin/webhook/send?key=k");
            assert_eq!(message.msg_type, "markdown");
            assert_eq!(message.markdown.content, CONTENT);
        }
        other => panic!("unexpected {:?}", other),
    }
    let (_, action) = push(&config, stage, PushEvent::Notified(true));
    assert_eq!(respond_status(action), PushStatus::Success);
}

#[test]
fn pulled_artifact_post_failure_fails() {
    let config = runtime_config();
    let (stage, action) = read(&config, event("PULL_ARTIFACT", vec![resource(1)]));
    assert!(matches!(action, PushAction::Notify { .. }));
    let (_, action) = push(&config, stage, PushEvent::Notified(false));
    assert_eq!(respond_status(action), PushStatus::Failure);
}

#[test]
fn finished_scan_files_an_issue_and_links_it() {
    let config = runtime_config();
    let (stage, action) = read(&config, event("SCANNING_COMPLETED", vec![resource(12)]));
    match action {
        PushAction::CreateIssue(req) => {
            assert_eq!(req.title, "nginx扫描出CVE漏洞12总计-3可修复");
            assert_eq!(req.assignees, vec![String::from("smartcat999")]);
        }
        other => panic!("unexpected {:?}", other),
    }
    let created = Issue {
        id: 9,
        number: 7,
        title: String::from("nginx扫描出CVE漏洞12总计-3可修复"),
        state: String::from("open"),
        url: String::from("https://api.github.com/repos/smartcat999/issue_auto_report/issues/7"),
    };
    let (stage, action) = push(&config, stage, PushEvent::IssueCreated(Some(created)));
    match action {
        PushAction::FetchIssue(url) => {
            assert_eq!(url, "https://api.github.com/repos/smartcat999/issue_auto_report/issues/7")
        }
        other => panic!("unexpected {:?}", other),
    }
    let meta = IssueResponse { html_url: String::from("https://github.com/smartcat999/issue_auto_report/issues/7") };
    let (stage, action) = push(&config, stage, PushEvent::IssueFetched(Some(meta)));
    match action {
        PushAction::Notify { message, .. } => {
            let expected = CONTENT.replace("PUSH_ARTIFACT", "SCANNING_COMPLETED")
                + "GitHub: [issue #7](https://github.com/smartcat999/issue_auto_report/issues/7)\n";
            assert_eq!(message.markdown.content, expected);
        }
        other => panic!("unexpected {:?}", other),
    }
    let (_, action) = push(&config, stage, PushEvent::Notified(true));
    assert_eq!(respond_status(action), PushStatus::Success);
}

#[test]
fn issue_failures_fail_the_push() {
    let config = runtime_config();
    let (stage, _) = read(&config, event("SCANNING_COMPLETED", vec![resource(12)]));
    let (_, action) = push(&config, stage, PushEvent::IssueCreated(None));
    assert_eq!(respond_status(action), PushStatus::Failure);
    let stage = PushStage::FetchingIssue { content: String::from("c"), number: 1 };
    let (_, action) = push(&config, stage, PushEvent::IssueFetched(None));
    assert_eq!(respond_status(action), PushStatus::Failure);
}
