//! The webhook events that Harbor sends.

use vstd::prelude::*;

verus! {

pub const HARBOR_EVENT_TYPE_SCANNING_COMPLETED: &'static str = "SCANNING_COMPLETED";

pub const HARBOR_EVENT_TYPE_PUSH_ARTIFACT: &'static str = "PUSH_ARTIFACT";

pub const HARBOR_EVENT_TYPE_PULL_ARTIFACT: &'static str = "PULL_ARTIFACT";

/// One webhook event.
#[derive(Debug)]
pub struct WebhookEvent {
    pub event_type: String,
    pub occur_at: u64,
    pub operator: String,
    pub event_data: EventData,
}

/// The artifacts and the repository that an event concerns.
#[derive(Debug)]
pub struct EventData {
    pub resources: Vec<Resource>,
    pub repository: Repository,
}

/// One artifact and its scan overview.
#[derive(Debug, Default)]
pub struct Resource {
    pub digest: String,
    pub tag: String,
    pub resource_url: String,
    pub scan_overview: ScanOverview,
}

/// The vulnerability report of an artifact.
#[derive(Debug, Default)]
pub struct ScanOverview {
    pub report_v1: ScanReport,
}

/// One vulnerability report.
#[derive(Debug, Default)]
pub struct ScanReport {
    pub report_id: String,
    pub scan_status: String,
    pub severity: String,
    pub duration: u64,
    pub summary: ScanSummary,
    pub start_time: String,
    pub end_time: String,
    pub scanner: Scanner,
    pub complete_percent: u64,
}

/// How many vulnerabilities were found, and how many of them can be fixed.
#[derive(Debug, Default)]
pub struct ScanSummary {
    pub total: u64,
    pub fixable: u64,
    pub summary: CVESummary,
}

/// The vulnerabilities found, by severity.
#[derive(Debug, Default)]
pub struct CVESummary {
    pub high: u64,
    pub medium: u64,
    pub low: u64,
}

/// The scanner that made a report.
#[derive(Debug, Default)]
pub struct Scanner {
    pub name: String,
    pub vendor: String,
    pub version: String,
}

/// The repository that holds the artifacts.
#[derive(Debug)]
pub struct Repository {
    pub date_created: u64,
    pub name: String,
    pub namespace: String,
    pub repo_full_name: String,
    pub repo_type: String,
}

} // verus!
