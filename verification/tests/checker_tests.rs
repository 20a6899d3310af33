use common::pkg::etc::checker::{
    check, dir_exists, file_exists, CheckFailure, CheckStage, FsAction, FsEvent, PathProbe,
};
use common::pkg::etc::config::Config;
use common::pkg::etc::errors::ConfigValidatorError;

fn configured(cache: &str, reports: &str) -> Config {
    let mut conf = Config::default();
    conf.trivy.cache_dir = String::from(cache);
    conf.trivy.reports_dir = String::from(reports);
    conf
}

fn with_tls(mut conf: Config, cas: &[&str]) -> Config {
    conf.api.tls_certificate = String::from("cert.pem");
    conf.api.tls_key = String::from("key.pem");
    conf.api.client_cas = cas.iter().map(|c| c.to_string()).collect();
    conf
}

const DIR: PathProbe = PathProbe { exists: true, is_dir: true };
const FILE: PathProbe = PathProbe { exists: true, is_dir: false };
const MISSING: PathProbe = PathProbe { exists: false, is_dir: false };

fn probe_path(action: &FsAction) -> String {
    match action {
        FsAction::Probe(p) => p.clone(),
        other => panic!("expected a probe, got {:?}", other),
    }
}

#[test]
fn dir_and_file_probes() {
    assert!(dir_exists(&DIR));
    assert!(!dir_exists(&FILE));
    assert!(!dir_exists(&MISSING));
    assert!(file_exists(&FILE));
    assert!(!file_exists(&DIR));
    assert!(!file_exists(&MISSING));
}

#[test]
fn blank_cache_dir_is_refused_first() {
    let conf = Config::default();
    let (stage, action) = check(&conf, CheckStage::Start, FsEvent::Begin);
    assert_eq!(stage, CheckStage::Finished);
    assert!(matches!(
        action,
        FsAction::Done(Err(CheckFailure::Invalid(ConfigValidatorError::TrivyCacheDirEmpty)))
    ));
}

#[test]
fn blank_reports_dir_is_refused() {
    let conf = configured("cache", "");
    let (_, action) = check(&conf, CheckStage::Start, FsEvent::Begin);
    assert!(matches!(
        action,
        FsAction::Done(Err(CheckFailure::Invalid(ConfigValidatorError::TrivyReportsDirEmpty)))
    ));
}

#[test]
fn existing_dirs_are_not_created() {
    let conf = configured("cache", "reports");
    let (stage, action) = check(&conf, CheckStage::Start, FsEvent::Begin);
    assert_eq!(stage, CheckStage::ProbingCacheDir);
    assert_eq!(probe_path(&action), "cache");
    let (stage, action) = check(&conf, stage, FsEvent::Probed(DIR));
    assert_eq!(stage, CheckStage::ProbingReportsDir);
    assert_eq!(probe_path(&action), "reports");
    let (stage, action) = check(&conf, stage, FsEvent::Probed(DIR));
    assert_eq!(stage, CheckStage::Finished);
    assert!(matches!(action, FsAction::Done(Ok(()))));
}

#[test]
fn missing_dir_is_created_and_failure_reported() {
    let conf = configured("cache", "reports");
    let (stage, _) = check(&conf, CheckStage::Start, FsEvent::Begin);
    let (stage, action) = check(&conf, stage, FsEvent::Probed(FILE));
    assert_eq!(stage, CheckStage::CreatingCacheDir);
    assert!(matches!(action, FsAction::CreateDir(ref p) if p == "cache"));
    let (stage, action) = check(&conf, stage, FsEvent::CreateFailed);
    assert_eq!(stage, CheckStage::Finished);
    assert!(matches!(action, FsAction::Done(Err(CheckFailure::CreateDirFailed(ref p))) if p == "cache"));
}

#[test]
fn reports_dir_creation_failure_names_it() {
    let conf = configured("cache", "reports");
    let (stage, _) = check(&conf, CheckStage::Start, FsEvent::Begin);
    let (stage, _) = check(&conf, stage, FsEvent::Probed(DIR));
    let (stage, action) = check(&conf, stage, FsEvent::Probed(MISSING));
    assert_eq!(stage, CheckStage::CreatingReportsDir);
    assert!(matches!(action, FsAction::CreateDir(ref p) if p == "reports"));
    let (_, action) = check(&conf, stage, FsEvent::CreateFailed);
    assert!(matches!(action, FsAction::Done(Err(CheckFailure::CreateDirFailed(ref p))) if p == "reports"));
}

fn through_dirs(conf: &Config) -> (CheckStage, FsAction) {
    let (stage, _) = check(conf, CheckStage::Start, FsEvent::Begin);
    let (stage, _) = check(conf, stage, FsEvent::Probed(MISSING));
    let (stage, _) = check(conf, stage, FsEvent::Created);
    let (stage, _) = check(conf, stage, FsEvent::Probed(MISSING));
    check(conf, stage, FsEvent::Created)
}

#[test]
fn tls_off_passes_after_dirs() {
    let conf = configured("cache", "reports");
    let (stage, action) = through_dirs(&conf);
    assert_eq!(stage, CheckStage::Finished);
    assert!(matches!(action, FsAction::Done(Ok(()))));
}

#[test]
fn missing_certificate_is_named() {
    let conf = with_tls(configured("cache", "reports"), &[]);
    let (stage, action) = through_dirs(&conf);
    assert_eq!(stage, CheckStage::ProbingCert);
    assert_eq!(probe_path(&action), "cert.pem");
    let (_, action) = check(&conf, stage, FsEvent::Probed(DIR));
    match action {
        FsAction::Done(Err(CheckFailure::Invalid(ConfigValidatorError::TLSCertNotFound(p)))) => {
            assert_eq!(p, "cert.pem")
        }
        other => panic!("unexpected {:?}", other),
    }
}

#[test]
fn missing_key_is_named() {
    let conf = with_tls(configured("cache", "reports"), &[]);
    let (stage, _) = through_dirs(&conf);
    let (stage, action) = check(&conf, stage, FsEvent::Probed(FILE));
    assert_eq!(stage, CheckStage::ProbingKey);
    assert_eq!(probe_path(&action), "key.pem");
    let (_, action) = check(&conf, stage, FsEvent::Probed(MISSING));
    match action {
        FsAction::Done(Err(CheckFailure::Invalid(ConfigValidatorError::TLSPrivateKeyNotFound(p)))) => {
            assert_eq!(p, "key.pem")
        }
        other => panic!("unexpected {:?}", other),
    }
}

#[test]
fn first_missing_client_ca_is_named() {
    let conf = with_tls(configured("cache", "reports"), &["a.pem", "b.pem", "c.pem"]);
    let (stage, _) = through_dirs(&conf);
    let (stage, _) = check(&conf, stage, FsEvent::Probed(FILE));
    let (stage, action) = check(&conf, stage, FsEvent::Probed(FILE));
    assert_eq!(stage, CheckStage::ProbingClientCa(0));
    assert_eq!(probe_path(&action), "a.pem");
    let (stage, action) = check(&conf, stage, FsEvent::Probed(FILE));
    assert_eq!(stage, CheckStage::ProbingClientCa(1));
    assert_eq!(probe_path(&action), "b.pem");
    let (_, action) = check(&conf, stage, FsEvent::Probed(MISSING));
    match action {
        FsAction::Done(Err(CheckFailure::Invalid(ConfigValidatorError::ClientCANotFound(p)))) => {
            assert_eq!(p, "b.pem")
        }
        other => panic!("unexpected {:?}", other),
    }
}

#[test]
fn all_tls_files_present_passes() {
    let conf = with_tls(configured("cache", "reports"), &["a.pem"]);
    let (stage, _) = through_dirs(&conf);
    let (stage, _) = check(&conf, stage, FsEvent::Probed(FILE));
    let (stage, _) = check(&conf, stage, FsEvent::Probed(FILE));
    let (stage, action) = check(&conf, stage, FsEvent::Probed(FILE));
    assert_eq!(stage, CheckStage::Finished);
    assert!(matches!(action, FsAction::Done(Ok(()))));
}

#[test]
fn out_of_step_answer_fails() {
    let conf = configured("cache", "reports");
    let (stage, action) = check(&conf, CheckStage::ProbingCacheDir, FsEvent::Created);
    assert_eq!(stage, CheckStage::Finished);
    assert!(matches!(action, FsAction::Done(Err(CheckFailure::UnexpectedAnswer))));
}

#[test]
fn client_ca_index_past_the_list_fails() {
    let conf = with_tls(configured("cache", "reports"), &["a.pem"]);
    let (stage, action) = check(&conf, CheckStage::ProbingClientCa(1), FsEvent::Probed(FILE));
    assert_eq!(stage, CheckStage::Finished);
    assert!(matches!(action, FsAction::Done(Err(CheckFailure::UnexpectedAnswer))));
}
