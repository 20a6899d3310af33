//! Checking the scanner settings before the service starts.
//!
//! The check asks the file system about paths and creates missing directories.
//! Those steps are performed by the caller: `check` decides, from the settings,
//! the step it is at and the answer to the last request, what to do next.

use crate::pkg::etc::config::Config;
use crate::pkg::etc::errors::ConfigValidatorError;
use vstd::prelude::*;

verus! {

/// What the file system said about one path.
#[derive(Debug, Clone, Copy, PartialEq, Eq)]
pub struct PathProbe {
    pub exists: bool,
    pub is_dir: bool,
}

/// The path names an existing directory.
pub fn dir_exists(probe: &PathProbe) -> (r: bool)
    ensures
        r == (probe.exists && probe.is_dir),
{
    if !probe.exists {
        return false;
    }
    probe.is_dir
}

/// The path names an existing entry that is not a directory.
pub fn file_exists(probe: &PathProbe) -> (r: bool)
    ensures
        r == (probe.exists && !probe.is_dir),
{
    if !probe.exists {
        return false;
    }
    !probe.is_dir
}

/// How far a check has come: the request it waits an answer for.
#[derive(Debug, Clone, Copy, PartialEq, Eq)]
pub enum CheckStage {
    Start,
    ProbingCacheDir,
    CreatingCacheDir,
    ProbingReportsDir,
    CreatingReportsDir,
    ProbingCert,
    ProbingKey,
    ProbingClientCa(usize),
    Finished,
}

/// The answer to the last request (`Begin` starts a check).
#[derive(Debug, Clone, Copy, PartialEq, Eq)]
pub enum FsEvent {
    Begin,
    Probed(PathProbe),
    Created,
    CreateFailed,
}

/// Why a check did not pass.
#[derive(Debug)]
pub enum CheckFailure {
    /// The settings are refused.
    Invalid(ConfigValidatorError),
    /// Creating the named directory failed; the caller holds the cause.
    CreateDirFailed(String),
    /// The answer was not the kind that the stage waits for.
    UnexpectedAnswer,
}

/// The next request of a check, or its outcome.
#[derive(Debug)]
pub enum FsAction {
    /// Ask whether the path exists and whether it is a directory.
    Probe(String),
    /// Create the directory and its missing parents.
    CreateDir(String),
    /// The check is over.
    Done(Result<(), CheckFailure>),
}

/// A refusal of the settings.
pub open spec fn refused(e: ConfigValidatorError) -> (CheckStage, FsAction) {
    (CheckStage::Finished, FsAction::Done(Err(CheckFailure::Invalid(e))))
}

/// The check passed.
pub open spec fn passed() -> (CheckStage, FsAction) {
    (CheckStage::Finished, FsAction::Done(Ok(())))
}

/// Once the cache directory is in place: look at the reports directory.
pub open spec fn after_cache_dir(config: Config) -> (CheckStage, FsAction) {
    (CheckStage::ProbingReportsDir, FsAction::Probe(config.trivy.reports_dir))
}

/// Once both directories are in place: the TLS files, if TLS is on.
pub open spec fn after_reports_dir(config: Config) -> (CheckStage, FsAction) {
    if config.api.tls_enabled() {
        (CheckStage::ProbingCert, FsAction::Probe(config.api.tls_certificate))
    } else {
        passed()
    }
}

/// Client CA files from index `i` on remain to be looked at.
pub open spec fn client_cas_from(config: Config, i: int) -> (CheckStage, FsAction) {
    if i < config.api.client_cas@.len() {
        (CheckStage::ProbingClientCa(i as usize), FsAction::Probe(config.api.client_cas@[i]))
    } else {
        passed()
    }
}

/// One step of the check: what follows `stage` when `event` answers it.
pub open spec fn check_step(config: Config, stage: CheckStage, event: FsEvent) -> (
    CheckStage,
    FsAction,
) {
    match (stage, event) {
        (CheckStage::Start, FsEvent::Begin) => if config.trivy.cache_dir@.len() == 0 {
            refused(ConfigValidatorError::TrivyCacheDirEmpty)
        } else if config.trivy.reports_dir@.len() == 0 {
            refused(ConfigValidatorError::TrivyReportsDirEmpty)
        } else {
            (CheckStage::ProbingCacheDir, FsAction::Probe(config.trivy.cache_dir))
        },
        (CheckStage::ProbingCacheDir, FsEvent::Probed(p)) => if p.exists && p.is_dir {
            after_cache_dir(config)
        } else {
            (CheckStage::CreatingCacheDir, FsAction::CreateDir(config.trivy.cache_dir))
        },
        (CheckStage::CreatingCacheDir, FsEvent::Created) => after_cache_dir(config),
        (CheckStage::CreatingCacheDir, _) => (
            CheckStage::Finished,
            FsAction::Done(Err(CheckFailure::CreateDirFailed(config.trivy.cache_dir))),
        ),
        (CheckStage::ProbingReportsDir, FsEvent::Probed(p)) => if p.exists && p.is_dir {
            after_reports_dir(config)
        } else {
            (CheckStage::CreatingReportsDir, FsAction::CreateDir(config.trivy.reports_dir))
        },
        (CheckStage::CreatingReportsDir, FsEvent::Created) => after_reports_dir(config),
        (CheckStage::CreatingReportsDir, _) => (
            CheckStage::Finished,
            FsAction::Done(Err(CheckFailure::CreateDirFailed(config.trivy.reports_dir))),
        ),
        (CheckStage::ProbingCert, FsEvent::Probed(p)) => if p.exists && !p.is_dir {
            (CheckStage::ProbingKey, FsAction::Probe(config.api.tls_key))
        } else {
            refused(ConfigValidatorError::TLSCertNotFound(config.api.tls_certificate))
        },
        (CheckStage::ProbingKey, FsEvent::Probed(p)) => if p.exists && !p.is_dir {
            client_cas_from(config, 0)
        } else {
            refused(ConfigValidatorError::TLSPrivateKeyNotFound(config.api.tls_key))
        },
        (CheckStage::ProbingClientCa(i), FsEvent::Probed(p)) => if i >= config.api.client_cas@.len() {
            (CheckStage::Finished, FsAction::Done(Err(CheckFailure::UnexpectedAnswer)))
        } else if p.exists && !p.is_dir {
            client_cas_from(config, i + 1)
        } else {
            refused(ConfigValidatorError::ClientCANotFound(config.api.client_cas@[i as int]))
        },
        _ => (CheckStage::Finished, FsAction::Done(Err(CheckFailure::UnexpectedAnswer))),
    }
}

fn refuse(e: ConfigValidatorError) -> (r: (CheckStage, FsAction))
    ensures
        r == refused(e),
{
    (CheckStage::Finished, FsAction::Done(Err(CheckFailure::Invalid(e))))
}

fn next_client_ca(config: &Config, i: usize) -> (r: (CheckStage, FsAction))
    ensures
        r == client_cas_from(*config, i as int),
{
    if i < config.api.client_cas.len() {
        (CheckStage::ProbingClientCa(i), FsAction::Probe(config.api.client_cas[i].clone()))
    } else {
        (CheckStage::Finished, FsAction::Done(Ok(())))
    }
}

fn reports_dir_ready(config: &Config) -> (r: (CheckStage, FsAction))
    ensures
        r == after_reports_dir(*config),
{
    if config.api.is_tls_enabled() {
        (CheckStage::ProbingCert, FsAction::Probe(config.api.tls_certificate.clone()))
    } else {
        (CheckStage::Finished, FsAction::Done(Ok(())))
    }
}

/// Checks the settings, one file system request at a time.
///
/// A blank cache or reports directory is refused; both directories are
/// created when they do not exist; with TLS on, the certificate, the private
/// key and every client CA must be existing files, and the first one that is
/// not is named in the refusal. An answer that does not fit the stage ends
/// the check as failed.
pub fn check(config: &Config, stage: CheckStage, event: FsEvent) -> (r: (CheckStage, FsAction))
    ensures
        r == check_step(*config, stage, event),
        event is CreateFailed ==> r.0 == CheckStage::Finished && (r.1 matches FsAction::Done(Err(_))),
        stage is CreatingCacheDir && event is CreateFailed ==> (r.1 matches FsAction::Done(
            Err(CheckFailure::CreateDirFailed(d)),
        ) && d@ == config.trivy.cache_dir@),
        stage is CreatingReportsDir && event is CreateFailed ==> (r.1 matches FsAction::Done(
            Err(CheckFailure::CreateDirFailed(d)),
        ) && d@ == config.trivy.reports_dir@),
        r.1 matches FsAction::Done(Ok(_)) ==> (event is Created || (event matches FsEvent::Probed(p)
            && p.exists)),
        r.0 != CheckStage::Finished ==> r.0 != CheckStage::Start,
        r.0 matches CheckStage::ProbingClientCa(j) ==> j < config.api.client_cas@.len(),
{
    match (stage, event) {
        (CheckStage::Start, FsEvent::Begin) => {
            if config.trivy.cache_dir.as_str().is_empty() {
                refuse(ConfigValidatorError::TrivyCacheDirEmpty)
            } else if config.trivy.reports_dir.as_str().is_empty() {
                refuse(ConfigValidatorError::TrivyReportsDirEmpty)
            } else {
                (CheckStage::ProbingCacheDir, FsAction::Probe(config.trivy.cache_dir.clone()))
            }
        },
        (CheckStage::ProbingCacheDir, FsEvent::Probed(p)) => {
            if dir_exists(&p) {
                (CheckStage::ProbingReportsDir, FsAction::Probe(config.trivy.reports_dir.clone()))
            } else {
                (CheckStage::CreatingCacheDir, FsAction::CreateDir(config.trivy.cache_dir.clone()))
            }
        },
        (CheckStage::CreatingCacheDir, FsEvent::Created) => {
            (CheckStage::ProbingReportsDir, FsAction::Probe(config.trivy.reports_dir.clone()))
        },
        (CheckStage::CreatingCacheDir, _) => {
            (
                CheckStage::Finished,
                FsAction::Done(Err(CheckFailure::CreateDirFailed(config.trivy.cache_dir.clone()))),
            )
        },
        (CheckStage::ProbingReportsDir, FsEvent::Probed(p)) => {
            if dir_exists(&p) {
                reports_dir_ready(config)
            } else {
                (
                    CheckStage::CreatingReportsDir,
                    FsAction::CreateDir(config.trivy.reports_dir.clone()),
                )
            }
        },
        (CheckStage::CreatingReportsDir, FsEvent::Created) => reports_dir_ready(config),
        (CheckStage::CreatingReportsDir, _) => {
            (
                CheckStage::Finished,
                FsAction::Done(
                    Err(CheckFailure::CreateDirFailed(config.trivy.reports_dir.clone())),
                ),
            )
        },
        (CheckStage::ProbingCert, FsEvent::Probed(p)) => {
            if file_exists(&p) {
                (CheckStage::ProbingKey, FsAction::Probe(config.api.tls_key.clone()))
            } else {
                refuse(ConfigValidatorError::TLSCertNotFound(config.api.tls_certificate.clone()))
            }
        },
        (CheckStage::ProbingKey, FsEvent::Probed(p)) => {
            if file_exists(&p) {
                next_client_ca(config, 0)
            } else {
                refuse(ConfigValidatorError::TLSPrivateKeyNotFound(config.api.tls_key.clone()))
            }
        },
        (CheckStage::ProbingClientCa(i), FsEvent::Probed(p)) => {
            if i >= config.api.client_cas.len() {
                (CheckStage::Finished, FsAction::Done(Err(CheckFailure::UnexpectedAnswer)))
            } else if file_exists(&p) {
                assert(i < config.api.client_cas.len());
                next_client_ca(config, i + 1)
            } else {
                refuse(ConfigValidatorError::ClientCANotFound(config.api.client_cas[i].clone()))
            }
        },
        _ => (CheckStage::Finished, FsAction::Done(Err(CheckFailure::UnexpectedAnswer))),
    }
}


/// A file system as the check sees it: its directories and its other entries.
pub struct FsModel {
    pub dirs: Set<Seq<char>>,
    pub files: Set<Seq<char>>,
}

/// What `fs` answers to a probe of `path`.
pub open spec fn probe_in(fs: FsModel, path: Seq<char>) -> PathProbe {
    PathProbe { exists: fs.dirs.contains(path) || fs.files.contains(path), is_dir: fs.dirs.contains(path) }
}

/// `path` names an existing entry of `fs` that is not a directory.
pub open spec fn is_file_in(fs: FsModel, path: Seq<char>) -> bool {
    fs.files.contains(path) && !fs.dirs.contains(path)
}

/// The answer of `fs` to a request, and the file system after it; every
/// directory creation succeeds.
pub open spec fn respond(fs: FsModel, action: FsAction) -> (FsEvent, FsModel) {
    match action {
        FsAction::Probe(p) => (FsEvent::Probed(probe_in(fs, p@)), fs),
        FsAction::CreateDir(p) => (
            FsEvent::Created,
            FsModel { dirs: fs.dirs.insert(p@), files: fs.files },
        ),
        FsAction::Done(_) => (FsEvent::Begin, fs),
    }
}

/// The outcome of a check that stands at `stage` with `action` requested and
/// is answered by `fs`, within `fuel` further answers.
pub open spec fn run_from(
    config: Config,
    stage: CheckStage,
    action: FsAction,
    fs: FsModel,
    fuel: nat,
) -> Option<Result<(), CheckFailure>>
    decreases fuel,
{
    match action {
        FsAction::Done(r) => Some(r),
        _ => if fuel == 0 {
            None
        } else {
            let answer = respond(fs, action);
            let next = check_step(config, stage, answer.0);
            run_from(config, next.0, next.1, answer.1, (fuel - 1) as nat)
        },
    }
}

/// The first client CA from index `i` on that is not an existing file.
pub open spec fn first_missing_client_ca(config: Config, fs: FsModel, i: int) -> Result<
    (),
    CheckFailure,
>
    decreases config.api.client_cas@.len() - i,
{
    if i >= config.api.client_cas@.len() || i < 0 {
        Ok(())
    } else if !is_file_in(fs, config.api.client_cas@[i]@) {
        Err(CheckFailure::Invalid(ConfigValidatorError::ClientCANotFound(config.api.client_cas@[i])))
    } else {
        first_missing_client_ca(config, fs, i + 1)
    }
}

/// The verdict on `config` against `fs`, where creating a directory succeeds.
pub open spec fn check_verdict(config: Config, fs: FsModel) -> Result<(), CheckFailure> {
    if config.trivy.cache_dir@.len() == 0 {
        Err(CheckFailure::Invalid(ConfigValidatorError::TrivyCacheDirEmpty))
    } else if config.trivy.reports_dir@.len() == 0 {
        Err(CheckFailure::Invalid(ConfigValidatorError::TrivyReportsDirEmpty))
    } else {
        let ready = FsModel {
            dirs: fs.dirs.insert(config.trivy.cache_dir@).insert(config.trivy.reports_dir@),
            files: fs.files,
        };
        if !config.api.tls_enabled() {
            Ok(())
        } else if !is_file_in(ready, config.api.tls_certificate@) {
            Err(CheckFailure::Invalid(ConfigValidatorError::TLSCertNotFound(config.api.tls_certificate)))
        } else if !is_file_in(ready, config.api.tls_key@) {
            Err(CheckFailure::Invalid(ConfigValidatorError::TLSPrivateKeyNotFound(config.api.tls_key)))
        } else {
            first_missing_client_ca(config, ready, 0)
        }
    }
}

proof fn lemma_client_cas_run(config: Config, fs: FsModel, i: int, fuel: nat)
    requires
        0 <= i <= config.api.client_cas@.len(),
        fuel >= config.api.client_cas@.len() - i,
    ensures
        run_from(config, client_cas_from(config, i).0, client_cas_from(config, i).1, fs, fuel)
            == Some(first_missing_client_ca(config, fs, i)),
    decreases config.api.client_cas@.len() - i,
{
    assert(config.api.client_cas@.len() == config.api.client_cas.len());
    if i < config.api.client_cas@.len() {
        let p = config.api.client_cas@[i];
        assert((i as usize) as int == i);
        let answer = respond(fs, FsAction::Probe(p));
        assert(client_cas_from(config, i) == (
            CheckStage::ProbingClientCa(i as usize),
            FsAction::Probe(p),
        ));
        assert(answer.0 == FsEvent::Probed(probe_in(fs, p@)));
        let next = check_step(config, CheckStage::ProbingClientCa(i as usize), answer.0);
        if is_file_in(fs, p@) {
            assert(next == client_cas_from(config, i + 1));
            lemma_client_cas_run(config, fs, i + 1, (fuel - 1) as nat);
            assert(run_from(config, client_cas_from(config, i).0, client_cas_from(config, i).1, fs, fuel)
                == run_from(config, next.0, next.1, fs, (fuel - 1) as nat));
        } else {
            assert(next == refused(ConfigValidatorError::ClientCANotFound(p)));
            assert(run_from(config, client_cas_from(config, i).0, client_cas_from(config, i).1, fs, fuel)
                == run_from(config, next.0, next.1, fs, (fuel - 1) as nat));
        }
    }
}

/// Law: a check run against a file system in which every directory creation
/// succeeds ends, within a bounded number of steps, in exactly the verdict
/// `check_verdict`: the blank-directory refusals first, then, with TLS on,
/// the first of certificate, private key and client CAs (in order) that is
/// not an existing file once both directories are in place.
pub proof fn lemma_check_run(config: Config, fs: FsModel)
    ensures
        run_from(
            config,
            check_step(config, CheckStage::Start, FsEvent::Begin).0,
            check_step(config, CheckStage::Start, FsEvent::Begin).1,
            fs,
            config.api.client_cas@.len() + 6,
        ) == Some(check_verdict(config, fs)),
{
    let cache = config.trivy.cache_dir;
    let reports = config.trivy.reports_dir;
    if cache@.len() != 0 && reports@.len() != 0 {
        let fs1 = FsModel { dirs: fs.dirs.insert(cache@), files: fs.files };
        let ready = FsModel { dirs: fs1.dirs.insert(reports@), files: fs.files };
        if fs.dirs.contains(cache@) {
            assert(fs.dirs.insert(cache@) =~= fs.dirs);
        }
        if fs1.dirs.contains(reports@) {
            assert(fs1.dirs.insert(reports@) =~= fs1.dirs);
        }
        let n = config.api.client_cas@.len();
        // Putting both directories in place takes two to four answers; what
        // remains runs from `after_reports_dir` against `ready`, with at least
        // `rest` answers left.
        let rest = (n + 2) as nat;
        assert(run_from(config, CheckStage::ProbingCacheDir, FsAction::Probe(cache), fs, n + 6)
            == run_from(config, after_reports_dir(config).0, after_reports_dir(config).1, ready, rest)
            || run_from(config, CheckStage::ProbingCacheDir, FsAction::Probe(cache), fs, n + 6)
            == run_from(config, after_reports_dir(config).0, after_reports_dir(config).1, ready, (rest + 1) as nat)
            || run_from(config, CheckStage::ProbingCacheDir, FsAction::Probe(cache), fs, n + 6)
            == run_from(config, after_reports_dir(config).0, after_reports_dir(config).1, ready, (rest + 2) as nat)) by {
            reveal_with_fuel(run_from, 5);
        }
        if config.api.tls_enabled() {
            let cert = config.api.tls_certificate;
            let key = config.api.tls_key;
            assert forall|f: nat| f >= rest implies run_from(config, CheckStage::ProbingCert, FsAction::Probe(cert), ready, f)
                == Some(check_verdict(config, fs)) by {
                reveal_with_fuel(run_from, 3);
                if is_file_in(ready, cert@) && is_file_in(ready, key@) {
                    lemma_client_cas_run(config, ready, 0, (f - 2) as nat);
                }
            }
        }
    }
}

/// The file system that a run leaves, under the same answers as `run_from`.
pub open spec fn run_final_fs(
    config: Config,
    stage: CheckStage,
    action: FsAction,
    fs: FsModel,
    fuel: nat,
) -> FsModel
    decreases fuel,
{
    match action {
        FsAction::Done(_) => fs,
        _ => if fuel == 0 {
            fs
        } else {
            let answer = respond(fs, action);
            let next = check_step(config, stage, answer.0);
            run_final_fs(config, next.0, next.1, answer.1, (fuel - 1) as nat)
        },
    }
}

/// The directories that a run asks to create, in order, under the same
/// answers as `run_from`.
pub open spec fn run_created_dirs(
    config: Config,
    stage: CheckStage,
    action: FsAction,
    fs: FsModel,
    fuel: nat,
) -> Seq<Seq<char>>
    decreases fuel,
{
    match action {
        FsAction::Done(_) => Seq::empty(),
        _ => if fuel == 0 {
            Seq::empty()
        } else {
            let answer = respond(fs, action);
            let next = check_step(config, stage, answer.0);
            let rest = run_created_dirs(config, next.0, next.1, answer.1, (fuel - 1) as nat);
            match action {
                FsAction::CreateDir(p) => seq![p@] + rest,
                _ => rest,
            }
        },
    }
}

/// The stages that only look at TLS files, or are over.
pub open spec fn tls_stage(stage: CheckStage) -> bool {
    stage is ProbingCert || stage is ProbingKey || stage is ProbingClientCa || stage is Finished
}

proof fn lemma_tls_stages_change_nothing(
    config: Config,
    stage: CheckStage,
    action: FsAction,
    fs: FsModel,
    fuel: nat,
)
    requires
        tls_stage(stage),
        !(action is CreateDir),
    ensures
        run_created_dirs(config, stage, action, fs, fuel) == Seq::<Seq<char>>::empty(),
        run_final_fs(config, stage, action, fs, fuel) == fs,
    decreases fuel,
{
    if !(action is Done) && fuel > 0 {
        let answer = respond(fs, action);
        let next = check_step(config, stage, answer.0);
        assert(answer.1 == fs);
        assert(tls_stage(next.0) && !(next.1 is CreateDir));
        lemma_tls_stages_change_nothing(config, next.0, next.1, fs, (fuel - 1) as nat);
    }
}

/// What a check run leaves once it is past the two directories: both are
/// directories of the file system.
pub open spec fn with_dirs_ready(config: Config, fs: FsModel) -> FsModel {
    FsModel {
        dirs: fs.dirs.insert(config.trivy.cache_dir@).insert(config.trivy.reports_dir@),
        files: fs.files,
    }
}

proof fn lemma_reports_dir_leaves(config: Config, fs1: FsModel, f: nat)
    requires
        f >= config.api.client_cas@.len() + 4,
    ensures
        run_final_fs(
            config,
            CheckStage::ProbingReportsDir,
            FsAction::Probe(config.trivy.reports_dir),
            fs1,
            f,
        ) == (FsModel { dirs: fs1.dirs.insert(config.trivy.reports_dir@), files: fs1.files }),
{
    let reports = config.trivy.reports_dir;
    let ready = FsModel { dirs: fs1.dirs.insert(reports@), files: fs1.files };
    let after = after_reports_dir(config);
    assert(tls_stage(after.0) && !(after.1 is CreateDir));
    let answer = respond(fs1, FsAction::Probe(reports));
    let next = check_step(config, CheckStage::ProbingReportsDir, answer.0);
    if fs1.dirs.contains(reports@) {
        assert(fs1.dirs.insert(reports@) =~= fs1.dirs);
        assert(next == after);
        lemma_tls_stages_change_nothing(config, after.0, after.1, fs1, (f - 1) as nat);
    } else {
        assert(next == (CheckStage::CreatingReportsDir, FsAction::CreateDir(reports)));
        let answer2 = respond(fs1, FsAction::CreateDir(reports));
        assert(answer2.1 == ready);
        assert(check_step(config, CheckStage::CreatingReportsDir, answer2.0) == after);
        lemma_tls_stages_change_nothing(config, after.0, after.1, ready, (f - 2) as nat);
        assert(run_final_fs(config, next.0, next.1, fs1, (f - 1) as nat) == ready);
    }
}

/// Law: a check run leaves both directories in place and, in this model
/// (where creating a directory adds just that path, not its parents),
/// changes nothing else; run again on the file system it left, it creates nothing and reaches
/// the same verdict, so a check that passed passes again without creating any
/// directory.
pub proof fn lemma_check_rerun(config: Config, fs: FsModel)
    requires
        config.trivy.cache_dir@.len() != 0,
        config.trivy.reports_dir@.len() != 0,
    ensures
        ({
            let start = check_step(config, CheckStage::Start, FsEvent::Begin);
            let fuel = config.api.client_cas@.len() + 6;
            let left = run_final_fs(config, start.0, start.1, fs, fuel);
            &&& left == with_dirs_ready(config, fs)
            &&& run_created_dirs(config, start.0, start.1, left, fuel) == Seq::<Seq<char>>::empty()
            &&& run_from(config, start.0, start.1, left, fuel) == Some(check_verdict(config, fs))
        }),
{
    let cache = config.trivy.cache_dir;
    let reports = config.trivy.reports_dir;
    let n = config.api.client_cas@.len();
    let fuel = n + 6;
    let fs1 = FsModel { dirs: fs.dirs.insert(cache@), files: fs.files };
    let ready = with_dirs_ready(config, fs);
    if fs.dirs.contains(cache@) {
        assert(fs.dirs.insert(cache@) =~= fs.dirs);
    }
    if fs1.dirs.contains(reports@) {
        assert(fs1.dirs.insert(reports@) =~= fs1.dirs);
    }
    let after = after_reports_dir(config);
    assert(tls_stage(after.0) && !(after.1 is CreateDir));
    // the first run: two to four answers put the directories in place
    let answer = respond(fs, FsAction::Probe(cache));
    let next = check_step(config, CheckStage::ProbingCacheDir, answer.0);
    if fs.dirs.contains(cache@) {
        assert(next == after_cache_dir(config));
        assert(fs1 == fs);
        lemma_reports_dir_leaves(config, fs1, (fuel - 1) as nat);
    } else {
        assert(next == (CheckStage::CreatingCacheDir, FsAction::CreateDir(cache)));
        let answer2 = respond(fs, FsAction::CreateDir(cache));
        assert(answer2.1 == fs1);
        assert(check_step(config, CheckStage::CreatingCacheDir, answer2.0) == after_cache_dir(config));
        lemma_reports_dir_leaves(config, fs1, (fuel - 2) as nat);
        assert(run_final_fs(config, next.0, next.1, fs, (fuel - 1) as nat) == ready);
    }
    // the second run: both directories exist, so the probes lead past them
    assert(ready.dirs.contains(cache@) && ready.dirs.contains(reports@));
    assert(ready.dirs.insert(cache@) =~= ready.dirs);
    assert(ready.dirs.insert(cache@).insert(reports@) =~= ready.dirs);
    assert(with_dirs_ready(config, ready) == ready);
    lemma_tls_stages_change_nothing(config, after.0, after.1, ready, (fuel - 2) as nat);
    assert(run_created_dirs(config, CheckStage::ProbingCacheDir, FsAction::Probe(cache), ready, fuel)
        == Seq::<Seq<char>>::empty()) by {
        reveal_with_fuel(run_created_dirs, 3);
    }
    lemma_check_run(config, ready);
    assert(check_verdict(config, ready) == check_verdict(config, fs));
}

/// Law: a directory that cannot be created ends the check as failed, and the
/// failure names that directory, whatever the rest of the settings.
pub proof fn lemma_failed_creation_fails(config: Config)
    ensures
        check_step(config, CheckStage::CreatingCacheDir, FsEvent::CreateFailed) == (
            CheckStage::Finished,
            FsAction::Done(Err(CheckFailure::CreateDirFailed(config.trivy.cache_dir))),
        ),
        check_step(config, CheckStage::CreatingReportsDir, FsEvent::CreateFailed) == (
            CheckStage::Finished,
            FsAction::Done(Err(CheckFailure::CreateDirFailed(config.trivy.reports_dir))),
        ),
{
}

/// Law: a check passes only right after a positive answer (a directory was
/// created, or a probed path exists); a failed creation never lets it go on
/// or pass.
pub proof fn lemma_pass_needs_positive_answer(config: Config, stage: CheckStage, event: FsEvent)
    ensures
        check_step(config, stage, event).1 matches FsAction::Done(Ok(_)) ==> (event is Created || (
        event matches FsEvent::Probed(p) && p.exists)),
        event is CreateFailed ==> (check_step(config, stage, event).1 matches FsAction::Done(
            Err(_),
        )),
{
}

/// Law: blank directories are refused before anything else, the cache
/// directory first; otherwise the check starts by looking at the cache
/// directory.
pub proof fn lemma_start(config: Config)
    ensures
        config.trivy.cache_dir@.len() == 0 ==> check_step(config, CheckStage::Start, FsEvent::Begin)
            == (
            CheckStage::Finished,
            FsAction::Done(Err(CheckFailure::Invalid(ConfigValidatorError::TrivyCacheDirEmpty))),
        ),
        config.trivy.cache_dir@.len() != 0 && config.trivy.reports_dir@.len() == 0 ==> check_step(
            config,
            CheckStage::Start,
            FsEvent::Begin,
        ) == (
            CheckStage::Finished,
            FsAction::Done(Err(CheckFailure::Invalid(ConfigValidatorError::TrivyReportsDirEmpty))),
        ),
        config.trivy.cache_dir@.len() != 0 && config.trivy.reports_dir@.len() != 0 ==> check_step(
            config,
            CheckStage::Start,
            FsEvent::Begin,
        ) == (CheckStage::ProbingCacheDir, FsAction::Probe(config.trivy.cache_dir)),
{
}

/// Law: a directory is created exactly when the probe shows that it is not
/// an existing directory; once the cache directory is in place the reports
/// directory is looked at, and once that is in place the check passes with
/// TLS off, or looks at the certificate with TLS on.
pub proof fn lemma_directories(config: Config, p: PathProbe)
    ensures
        check_step(config, CheckStage::ProbingCacheDir, FsEvent::Probed(p)) == (if p.exists
            && p.is_dir {
            (CheckStage::ProbingReportsDir, FsAction::Probe(config.trivy.reports_dir))
        } else {
            (CheckStage::CreatingCacheDir, FsAction::CreateDir(config.trivy.cache_dir))
        }),
        check_step(config, CheckStage::CreatingCacheDir, FsEvent::Created) == (
            CheckStage::ProbingReportsDir,
            FsAction::Probe(config.trivy.reports_dir),
        ),
        !(p.exists && p.is_dir) ==> check_step(config, CheckStage::ProbingReportsDir, FsEvent::Probed(p))
            == (CheckStage::CreatingReportsDir, FsAction::CreateDir(config.trivy.reports_dir)),
        ({
            let ready = if config.api.tls_certificate@.len() != 0 && config.api.tls_key@.len() != 0 {
                (CheckStage::ProbingCert, FsAction::Probe(config.api.tls_certificate))
            } else {
                (CheckStage::Finished, FsAction::Done(Ok(())))
            };
            &&& p.exists && p.is_dir ==> check_step(
                config,
                CheckStage::ProbingReportsDir,
                FsEvent::Probed(p),
            ) == ready
            &&& check_step(config, CheckStage::CreatingReportsDir, FsEvent::Created) == ready
        }),
{
}

/// Law: with TLS on, the certificate, the private key and each client CA
/// must be an existing entry that is not a directory, in that order; the
/// first that is not is named in the refusal, and when the last one is found
/// the check passes.
pub proof fn lemma_tls_files(config: Config, p: PathProbe, i: usize)
    ensures
        ({
            let found = p.exists && !p.is_dir;
            let cas = config.api.client_cas@;
            &&& check_step(config, CheckStage::ProbingCert, FsEvent::Probed(p)) == (if found {
                (CheckStage::ProbingKey, FsAction::Probe(config.api.tls_key))
            } else {
                (
                    CheckStage::Finished,
                    FsAction::Done(
                        Err(
                            CheckFailure::Invalid(
                                ConfigValidatorError::TLSCertNotFound(config.api.tls_certificate),
                            ),
                        ),
                    ),
                )
            })
            &&& check_step(config, CheckStage::ProbingKey, FsEvent::Probed(p)) == (if !found {
                (
                    CheckStage::Finished,
                    FsAction::Done(
                        Err(
                            CheckFailure::Invalid(
                                ConfigValidatorError::TLSPrivateKeyNotFound(config.api.tls_key),
                            ),
                        ),
                    ),
                )
            } else if cas.len() == 0 {
                (CheckStage::Finished, FsAction::Done(Ok(())))
            } else {
                (CheckStage::ProbingClientCa(0), FsAction::Probe(cas[0]))
            })
            &&& i < cas.len() ==> check_step(config, CheckStage::ProbingClientCa(i), FsEvent::Probed(p))
                == (if !found {
                (
                    CheckStage::Finished,
                    FsAction::Done(
                        Err(CheckFailure::Invalid(ConfigValidatorError::ClientCANotFound(cas[i as int]))),
                    ),
                )
            } else if i + 1 == cas.len() {
                (CheckStage::Finished, FsAction::Done(Ok(())))
            } else {
                (CheckStage::ProbingClientCa((i + 1) as usize), FsAction::Probe(cas[i + 1]))
            })
        }),
{
    assert(config.api.client_cas@.len() == config.api.client_cas.len());
}

proof fn lemma_client_cas_pass(config: Config, fs: FsModel, i: int)
    requires
        0 <= i <= config.api.client_cas@.len(),
    ensures
        first_missing_client_ca(config, fs, i) == Ok::<(), CheckFailure>(()) <==> forall|j: int|
            i <= j < config.api.client_cas@.len() ==> is_file_in(
                fs,
                #[trigger] config.api.client_cas@[j]@,
            ),
    decreases config.api.client_cas@.len() - i,
{
    if i < config.api.client_cas@.len() {
        lemma_client_cas_pass(config, fs, i + 1);
    }
}

/// Law: a check run, against a file system where directory creation
/// succeeds, passes exactly when both directories are named and, if a
/// certificate and a key are both named, the certificate, the key and every
/// client CA are existing entries that are not directories once the two
/// directories are in place.
pub proof fn lemma_check_passes_when(config: Config, fs: FsModel)
    ensures
        ({
            let start = check_step(config, CheckStage::Start, FsEvent::Begin);
            let ready = FsModel {
                dirs: fs.dirs.insert(config.trivy.cache_dir@).insert(config.trivy.reports_dir@),
                files: fs.files,
            };
            run_from(config, start.0, start.1, fs, config.api.client_cas@.len() + 6) == Some(
                Ok::<(), CheckFailure>(()),
            ) <==> {
                &&& config.trivy.cache_dir@.len() != 0
                &&& config.trivy.reports_dir@.len() != 0
                &&& config.api.tls_certificate@.len() != 0 && config.api.tls_key@.len() != 0 ==> {
                    &&& ready.files.contains(config.api.tls_certificate@) && !ready.dirs.contains(
                        config.api.tls_certificate@,
                    )
                    &&& ready.files.contains(config.api.tls_key@) && !ready.dirs.contains(
                        config.api.tls_key@,
                    )
                    &&& forall|j: int|
                        0 <= j < config.api.client_cas@.len() ==> ready.files.contains(
                            #[trigger] config.api.client_cas@[j]@,
                        ) && !ready.dirs.contains(config.api.client_cas@[j]@)
                }
            }
        }),
{
    lemma_check_run(config, fs);
    let ready = FsModel {
        dirs: fs.dirs.insert(config.trivy.cache_dir@).insert(config.trivy.reports_dir@),
        files: fs.files,
    };
    lemma_client_cas_pass(config, ready, 0);
    let v = check_verdict(config, fs);
    let cas = config.api.client_cas@;
    let all_cas = forall|j: int|
        0 <= j < cas.len() ==> ready.files.contains(#[trigger] cas[j]@) && !ready.dirs.contains(
            cas[j]@,
        );
    let cond = config.trivy.cache_dir@.len() != 0 && config.trivy.reports_dir@.len() != 0 && (
    config.api.tls_certificate@.len() != 0 && config.api.tls_key@.len() != 0 ==> (
    ready.files.contains(config.api.tls_certificate@) && !ready.dirs.contains(
        config.api.tls_certificate@,
    ) && ready.files.contains(config.api.tls_key@) && !ready.dirs.contains(config.api.tls_key@)
        && all_cas));
    assert(all_cas == (forall|j: int|
        0 <= j < cas.len() ==> is_file_in(ready, #[trigger] cas[j]@)));
    if config.trivy.cache_dir@.len() != 0 && config.trivy.reports_dir@.len() != 0 {
        if config.api.tls_enabled() && is_file_in(ready, config.api.tls_certificate@) && is_file_in(
            ready,
            config.api.tls_key@,
        ) {
            assert(v == first_missing_client_ca(config, ready, 0));
            assert((v == Ok::<(), CheckFailure>(())) == cond);
        } else {
            assert((v == Ok::<(), CheckFailure>(())) == cond);
        }
    } else {
        assert((v == Ok::<(), CheckFailure>(())) == cond);
    }
}} // verus!
