use common::pkg::etc::checker::{check, CheckFailure, CheckStage, FsAction, FsEvent, PathProbe};
use common::pkg::etc::config;
use std::collections::HashSet;

/// Runs a check against an in-memory file system in which every directory
/// creation succeeds.
fn run_check(conf: &config::Config, dirs: &mut HashSet<String>, files: &HashSet<String>) -> Result<(), CheckFailure> {
    run_check_counting(conf, dirs, files, &mut Vec::new())
}

/// As `run_check`, recording every directory the check asks to create.
fn run_check_counting(
    conf: &config::Config,
    dirs: &mut HashSet<String>,
    files: &HashSet<String>,
    created: &mut Vec<String>,
) -> Result<(), CheckFailure> {
    let mut stage = CheckStage::Start;
    let mut event = FsEvent::Begin;
    loop {
        let (next, action) = check(conf, stage, event);
        event = match action {
            FsAction::Done(r) => return r,
            FsAction::Probe(p) => FsEvent::Probed(PathProbe {
                exists: dirs.contains(&p) || files.contains(&p),
                is_dir: dirs.contains(&p),
            }),
            FsAction::CreateDir(p) => {
                created.push(p.clone());
                dirs.insert(p);
                FsEvent::Created
            }
        };
        stage = next;
    }
}

#[test]
fn test_config_check() {
    let mut conf = config::Config::default();
    conf.trivy.cache_dir = String::from("./tmp/cache");
    conf.trivy.reports_dir = String::from("./tmp/reports");

    let mut dirs = HashSet::new();
    let files = HashSet::new();
    assert!(matches!(run_check(&conf, &mut dirs, &files), Ok(())));
    assert!(dirs.contains("./tmp/cache"));
    assert!(dirs.contains("./tmp/reports"));
}

#[test]
fn second_check_creates_nothing() {
    let mut conf = config::Config::default();
    conf.trivy.cache_dir = String::from("./tmp/cache");
    conf.trivy.reports_dir = String::from("./tmp/reports");
    let mut dirs = HashSet::new();
    let files = HashSet::new();
    let mut created = Vec::new();
    assert!(matches!(run_check_counting(&conf, &mut dirs, &files, &mut created), Ok(())));
    assert_eq!(created, vec![String::from("./tmp/cache"), String::from("./tmp/reports")]);
    let mut created_again = Vec::new();
    assert!(matches!(run_check_counting(&conf, &mut dirs, &files, &mut created_again), Ok(())));
    assert!(created_again.is_empty());
}
