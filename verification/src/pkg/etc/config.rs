//! Settings of the scanner service: API server, Trivy, Redis and job queue.

use std::time::Duration;
use vstd::prelude::*;

verus! {

/// Calls `Duration::default()`, which the standard library documents as the
/// zero-length duration. `Duration` has no view here, so the contract does
/// not state that the value is zero.
#[verifier::external_body]
fn zero_duration() -> Duration {
    Duration::default()
}

/// Version information of a build.
#[derive(Debug)]
pub struct BuildInfo {
    pub version: String,
    pub commit: String,
    pub date: String,
}

/// All settings of the service.
pub struct Config {
    pub api: API,
    pub trivy: Trivy,
    pub redis_store: RedisStore,
    pub job_queue: JobQueue,
    pub redis_pool: RedisPool,
}

impl Config {
    /// Every section holds its default settings.
    pub open spec fn is_default(&self) -> bool {
        &&& self.api.is_default()
        &&& self.trivy.is_default()
        &&& self.redis_store.is_default()
        &&& self.job_queue.is_default()
        &&& self.redis_pool.is_default()
    }
}

impl Default for Config {
    fn default() -> (r: Self)
        ensures
            r.is_default(),
    {
        Config {
            api: API::default(),
            trivy: Trivy::default(),
            redis_store: RedisStore::default(),
            job_queue: JobQueue::default(),
            redis_pool: RedisPool::default(),
        }
    }
}

/// Settings of the Trivy scanner.
pub struct Trivy {
    pub cache_dir: String,
    pub reports_dir: String,
    pub debug_mode: bool,
    pub vuln_type: String,
    pub scanners: String,
    pub severity: String,
    pub ignore_unfixed: bool,
    pub ignore_policy: String,
    pub skip_db_update: bool,
    pub skip_java_db_update: bool,
    pub offline_scan: bool,
    pub git_hub_token: String,
    pub insecure: bool,
    pub timeout: Duration,
}

impl Trivy {
    /// Every text is empty and every switch is off.
    pub open spec fn is_default(&self) -> bool {
        &&& self.cache_dir@.len() == 0
        &&& self.reports_dir@.len() == 0
        &&& !self.debug_mode
        &&& self.vuln_type@.len() == 0
        &&& self.scanners@.len() == 0
        &&& self.severity@.len() == 0
        &&& !self.ignore_unfixed
        &&& self.ignore_policy@.len() == 0
        &&& !self.skip_db_update
        &&& !self.skip_java_db_update
        &&& !self.offline_scan
        &&& self.git_hub_token@.len() == 0
        &&& !self.insecure
    }
}

impl Default for Trivy {
    fn default() -> (r: Self)
        ensures
            r.is_default(),
    {
        Trivy {
            cache_dir: String::new(),
            reports_dir: String::new(),
            debug_mode: false,
            vuln_type: String::new(),
            scanners: String::new(),
            severity: String::new(),
            ignore_unfixed: false,
            ignore_policy: String::new(),
            skip_db_update: false,
            skip_java_db_update: false,
            offline_scan: false,
            git_hub_token: String::new(),
            insecure: false,
            timeout: zero_duration(),
        }
    }
}

/// Settings of the API server.
pub struct API {
    pub addr: String,
    pub tls_certificate: String,
    pub tls_key: String,
    pub client_cas: Vec<String>,
    pub read_timeout: Duration,
    pub write_timeout: Duration,
    pub idle_timeout: Duration,
    pub metrics_enabled: bool,
}

impl API {
    /// TLS is on when both a certificate and a private key are configured.
    pub open spec fn tls_enabled(&self) -> bool {
        self.tls_certificate@.len() != 0 && self.tls_key@.len() != 0
    }

    /// No address, no TLS files, no client CAs, metrics off.
    pub open spec fn is_default(&self) -> bool {
        &&& self.addr@.len() == 0
        &&& self.tls_certificate@.len() == 0
        &&& self.tls_key@.len() == 0
        &&& self.client_cas@.len() == 0
        &&& !self.metrics_enabled
    }

    /// Whether the server is to serve TLS.
    pub fn is_tls_enabled(&self) -> (r: bool)
        ensures
            r == self.tls_enabled(),
    {
        !self.tls_certificate.as_str().is_empty() && !self.tls_key.as_str().is_empty()
    }
}

impl Default for API {
    fn default() -> (r: Self)
        ensures
            r.is_default(),
    {
        API {
            addr: String::new(),
            tls_certificate: String::new(),
            tls_key: String::new(),
            client_cas: Vec::new(),
            read_timeout: zero_duration(),
            write_timeout: zero_duration(),
            idle_timeout: zero_duration(),
            metrics_enabled: false,
        }
    }
}

/// Settings of the Redis store of scan jobs.
pub struct RedisStore {
    pub namespace: String,
    pub scan_job_ttl: Duration,
}

impl RedisStore {
    /// No namespace.
    pub open spec fn is_default(&self) -> bool {
        self.namespace@.len() == 0
    }
}

impl Default for RedisStore {
    fn default() -> (r: Self)
        ensures
            r.is_default(),
    {
        RedisStore { namespace: String::new(), scan_job_ttl: zero_duration() }
    }
}

/// Settings of the job queue.
pub struct JobQueue {
    pub namespace: String,
    pub worker_concurrency: i64,
}

impl JobQueue {
    /// No namespace and no workers.
    pub open spec fn is_default(&self) -> bool {
        self.namespace@.len() == 0 && self.worker_concurrency == 0
    }
}

impl Default for JobQueue {
    fn default() -> (r: Self)
        ensures
            r.is_default(),
    {
        JobQueue { namespace: String::new(), worker_concurrency: 0 }
    }
}

/// Settings of the Redis connection pool.
pub struct RedisPool {
    pub url: String,
    pub max_active: i64,
    pub max_idle: i64,
    pub idle_timeout: Duration,
    pub connection_timeout: Duration,
    pub read_timeout: Duration,
    pub write_timeout: Duration,
}

impl RedisPool {
    /// No address and no connections.
    pub open spec fn is_default(&self) -> bool {
        self.url@.len() == 0 && self.max_active == 0 && self.max_idle == 0
    }
}

impl Default for RedisPool {
    fn default() -> (r: Self)
        ensures
            r.is_default(),
    {
        RedisPool {
            url: String::new(),
            max_active: 0,
            max_idle: 0,
            idle_timeout: zero_duration(),
            connection_timeout: zero_duration(),
            read_timeout: zero_duration(),
            write_timeout: zero_duration(),
        }
    }
}

} // verus!
