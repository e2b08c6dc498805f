use mago_self_update::error::UpdateError;
use mago_self_update::guard::PathComponent;
use mago_self_update::orchestrator::exit_code;
use mago_self_update::orchestrator::Action;
use mago_self_update::orchestrator::Event;
use mago_self_update::orchestrator::Outcome;
use mago_self_update::orchestrator::SelfUpdateCommand;
use mago_self_update::orchestrator::Session;
use mago_self_update::release::Platform;
use mago_self_update::release::Release;
use mago_self_update::release::ReleaseAsset;

fn platform() -> Platform {
    Platform {
        target: "x86_64-unknown-linux-gnu".to_string(),
        bin_name: "mago".to_string(),
        archive_extension: ".tar.gz".to_string(),
        current_version: "1.0.0".to_string(),
        bin_path_template: "{{ bin }}-{{ version }}-{{ target }}/{{ bin }}".to_string(),
    }
}

fn command(check: bool, no_confirm: bool, tag: Option<&str>) -> SelfUpdateCommand {
    SelfUpdateCommand { check, no_confirm, tag: tag.map(|t| t.to_string()) }
}

fn release(version: &str) -> Release {
    Release {
        version: version.to_string(),
        assets: vec![
            ReleaseAsset { name: format!("mago-{}-aarch64-apple-darwin.tar.gz", version), download_url: "u1".to_string() },
            ReleaseAsset { name: format!("mago-{}-x86_64-unknown-linux-gnu.tar.gz", version), download_url: "u2".to_string() },
        ],
    }
}

fn normal_path(parts: &[&str]) -> Vec<PathComponent> {
    let mut v = vec![PathComponent::RootDir];
    for p in parts {
        v.push(PathComponent::Normal(p.to_string()));
    }
    v
}

fn stop_code(action: &Action) -> u8 {
    match action {
        Action::Stop(o) => exit_code(o),
        other => panic!("expected a stop, got {:?}", other),
    }
}

#[test]
fn check_mode_same_version_exits_zero() {
    let s = Session::new(command(true, false, None), platform());
    let (s, a) = s.step(Event::Begin);
    assert!(matches!(a, Action::ResolveLatest));
    let (_, a) = s.step(Event::ReleaseFound(release("1.0.0")));
    assert!(matches!(a, Action::Stop(Outcome::UpToDate)));
    assert_eq!(stop_code(&a), 0);
}

#[test]
fn check_mode_newer_version_exits_one() {
    let s = Session::new(command(true, false, None), platform());
    let (s, _) = s.step(Event::Begin);
    let (s, a) = s.step(Event::ReleaseFound(release("1.2.0")));
    assert!(matches!(a, Action::Stop(Outcome::UpdateAvailable)));
    assert_eq!(stop_code(&a), 1);
    assert!(!s.incompatible);
}

#[test]
fn check_mode_major_bump_warns() {
    let s = Session::new(command(true, false, None), platform());
    let (s, _) = s.step(Event::Begin);
    let (s, a) = s.step(Event::ReleaseFound(release("2.0.0")));
    assert_eq!(stop_code(&a), 1);
    assert!(s.incompatible);
}

#[test]
fn check_mode_with_tag_resolves_tag() {
    let s = Session::new(command(true, false, Some("1.0.0-beta.10")), platform());
    let (s, a) = s.step(Event::Begin);
    assert!(matches!(a, Action::ResolveTag(ref t) if t == "1.0.0-beta.10"));
    let (_, a) = s.step(Event::ReleaseFound(release("1.0.0-beta.10")));
    assert_eq!(stop_code(&a), 1);
}

#[test]
fn apply_mode_managed_install_is_refused_first() {
    let s = Session::new(command(false, true, None), platform());
    let (s, a) = s.step(Event::Begin);
    assert!(matches!(a, Action::CheckGuard));
    let paths = vec![normal_path(&["opt", "homebrew", "Cellar", "mago", "1.0.0", "bin", "mago"])];
    let (_, a) = s.step(Event::GuardInputs { paths, roots: Vec::new() });
    assert!(matches!(a, Action::Stop(Outcome::Failed(UpdateError::Refused))));
    assert_ne!(stop_code(&a), 0);
}

#[test]
fn apply_mode_full_run_updates() {
    let s = Session::new(command(false, false, None), platform());
    let (s, _) = s.step(Event::Begin);
    let paths = vec![normal_path(&["usr", "local", "bin", "mago"])];
    let (s, a) = s.step(Event::GuardInputs { paths, roots: vec![normal_path(&["opt", "homebrew"])] });
    assert!(matches!(a, Action::ResolveLatest));
    let (s, a) = s.step(Event::ReleaseFound(release("1.1.0")));
    assert!(matches!(a, Action::AskConfirmation));
    let (s, a) = s.step(Event::Answered("Y\n".to_string()));
    match &a {
        Action::Download(asset) => {
            assert_eq!(asset.name, "mago-1.1.0-x86_64-unknown-linux-gnu.tar.gz");
            assert_eq!(asset.download_url, "u2");
        }
        other => panic!("expected a download, got {:?}", other),
    }
    let (s, a) = s.step(Event::Downloaded);
    assert!(matches!(a, Action::Extract(ref e) if e == "mago-1.1.0-x86_64-unknown-linux-gnu/mago"));
    let (s, a) = s.step(Event::Extracted);
    assert!(matches!(a, Action::Replace(ref e) if e == "mago-1.1.0-x86_64-unknown-linux-gnu/mago"));
    let (_, a) = s.step(Event::Replaced);
    match &a {
        Action::Stop(Outcome::Updated(r)) => assert_eq!(r.version, "1.1.0"),
        other => panic!("expected an update, got {:?}", other),
    }
    assert_eq!(stop_code(&a), 0);
}

#[test]
fn apply_mode_no_confirm_downloads_directly() {
    let s = Session::new(command(false, true, Some("0.9.0")), platform());
    let (s, _) = s.step(Event::Begin);
    let (s, a) = s.step(Event::GuardInputs { paths: vec![normal_path(&["usr", "bin", "mago"])], roots: Vec::new() });
    assert!(matches!(a, Action::ResolveTag(ref t) if t == "0.9.0"));
    let (_, a) = s.step(Event::ReleaseFound(release("0.9.0")));
    assert!(matches!(a, Action::Download(_)));
}

#[test]
fn apply_mode_up_to_date_stops() {
    let s = Session::new(command(false, false, None), platform());
    let (s, _) = s.step(Event::Begin);
    let (s, _) = s.step(Event::GuardInputs { paths: Vec::new(), roots: Vec::new() });
    let (_, a) = s.step(Event::ReleaseFound(release("1.0.0")));
    assert!(matches!(a, Action::Stop(Outcome::UpToDate)));
    assert_eq!(stop_code(&a), 0);
}

#[test]
fn apply_mode_cancel_exits_one() {
    let s = Session::new(command(false, false, None), platform());
    let (s, _) = s.step(Event::Begin);
    let (s, _) = s.step(Event::GuardInputs { paths: Vec::new(), roots: Vec::new() });
    let (s, _) = s.step(Event::ReleaseFound(release("1.1.0")));
    let (_, a) = s.step(Event::Answered("n".to_string()));
    assert!(matches!(a, Action::Stop(Outcome::Failed(UpdateError::UserCancelled))));
    assert_eq!(stop_code(&a), 1);
}

#[test]
fn apply_mode_no_asset_fails() {
    let s = Session::new(command(false, true, None), platform());
    let (s, _) = s.step(Event::Begin);
    let (s, _) = s.step(Event::GuardInputs { paths: Vec::new(), roots: Vec::new() });
    let r = Release { version: "1.1.0".to_string(), assets: Vec::new() };
    let (_, a) = s.step(Event::ReleaseFound(r));
    assert!(matches!(a, Action::Stop(Outcome::Failed(UpdateError::NoAsset))));
    assert_eq!(stop_code(&a), 2);
}

#[test]
fn failures_end_the_run() {
    let s = Session::new(command(true, false, Some("9.9.9")), platform());
    let (s, _) = s.step(Event::Begin);
    let (_, a) = s.step(Event::ReleaseMissing);
    assert!(matches!(a, Action::Stop(Outcome::Failed(UpdateError::NotFound))));

    let s = Session::new(command(true, false, None), platform());
    let (s, _) = s.step(Event::Begin);
    let (_, a) = s.step(Event::ReleaseFound(release("nightly")));
    assert!(matches!(a, Action::Stop(Outcome::Failed(UpdateError::InvalidVersion))));

    let s = Session::new(command(false, true, None), platform());
    let (s, _) = s.step(Event::Begin);
    let (s, _) = s.step(Event::GuardInputs { paths: Vec::new(), roots: Vec::new() });
    let (s, _) = s.step(Event::ReleaseFound(release("1.1.0")));
    let (_, a) = s.step(Event::DownloadFailed);
    assert!(matches!(a, Action::Stop(Outcome::Failed(UpdateError::Download))));

    let s = Session::new(command(false, true, None), platform());
    let (s, _) = s.step(Event::Begin);
    let (s, _) = s.step(Event::GuardInputs { paths: Vec::new(), roots: Vec::new() });
    let (s, _) = s.step(Event::ReleaseFound(release("1.1.0")));
    let (s, _) = s.step(Event::Downloaded);
    let (_, a) = s.step(Event::ExtractFailed);
    assert!(matches!(a, Action::Stop(Outcome::Failed(UpdateError::Extraction))));

    let s = Session::new(command(false, true, None), platform());
    let (s, _) = s.step(Event::Begin);
    let (s, _) = s.step(Event::GuardInputs { paths: Vec::new(), roots: Vec::new() });
    let (s, _) = s.step(Event::ReleaseFound(release("1.1.0")));
    let (s, _) = s.step(Event::Downloaded);
    let (s, _) = s.step(Event::Extracted);
    let (_, a) = s.step(Event::ReplaceFailed);
    assert!(matches!(a, Action::Stop(Outcome::Failed(UpdateError::Replace))));
    assert_eq!(stop_code(&a), 2);
}

#[test]
fn unexpected_event_is_out_of_sequence() {
    let s = Session::new(command(true, false, None), platform());
    let (_, a) = s.step(Event::Downloaded);
    assert!(matches!(a, Action::Stop(Outcome::Failed(UpdateError::OutOfSequence))));
}
