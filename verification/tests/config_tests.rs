use common::config::{NotifyType};
use common::pkg::etc::config::{Config, JobQueue, RedisPool, RedisStore, Trivy, API};
use common::pkg::etc::errors::ConfigValidatorError;

#[test]
fn notify_type_name() {
    assert_eq!(NotifyType::Wechat.as_str(), "wechat");
}

#[test]
fn defaults_are_blank() {
    let c = Config::default();
    assert_eq!(c.trivy.cache_dir, "");
    assert_eq!(c.trivy.reports_dir, "");
    assert!(!c.trivy.debug_mode);
    assert!(!c.trivy.insecure);
    assert_eq!(c.api.addr, "");
    assert!(c.api.client_cas.is_empty());
    assert!(!c.api.metrics_enabled);
    assert_eq!(c.api.read_timeout, std::time::Duration::ZERO);
    assert_eq!(c.redis_store.namespace, "");
    assert_eq!(c.job_queue.worker_concurrency, 0);
    assert_eq!(c.redis_pool.max_active, 0);
    assert_eq!(c.redis_pool.max_idle, 0);
    assert_eq!(Trivy::default().timeout, std::time::Duration::ZERO);
    assert_eq!(API::default().tls_key, "");
    assert_eq!(RedisStore::default().namespace, "");
    assert_eq!(JobQueue::default().namespace, "");
    assert_eq!(RedisPool::default().url, "");
}

#[test]
fn tls_needs_certificate_and_key() {
    let mut api = API::default();
    assert!(!api.is_tls_enabled());
    api.tls_certificate = String::from("cert.pem");
    assert!(!api.is_tls_enabled());
    api.tls_key = String::from("key.pem");
    assert!(api.is_tls_enabled());
    api.tls_certificate = String::new();
    assert!(!api.is_tls_enabled());
}

#[test]
fn error_messages() {
    assert_eq!(ConfigValidatorError::TrivyCacheDirEmpty.message(), "trivy cache dir must not be blank");
    assert_eq!(ConfigValidatorError::TrivyReportsDirEmpty.message(), "trivy reports dir must not be blank");
    assert_eq!(
        ConfigValidatorError::TLSCertNotFound(String::from("c.pem")).message(),
        "TLS certificate file does not exist: `c.pem`"
    );
    assert_eq!(
        ConfigValidatorError::TLSPrivateKeyNotFound(String::from("k.pem")).message(),
        "TLS private key file does not exist: `k.pem`"
    );
    assert_eq!(
        ConfigValidatorError::ClientCANotFound(String::from("ca.pem")).message(),
        "ClientCA file does not exist: `ca.pem`"
    );
}
