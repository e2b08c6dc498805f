//! The update state machine. A driver performs each action that `step`
//! returns (resolving a release, probing the install, prompting, downloading,
//! extracting, replacing) and hands back what happened as the next event.

use vstd::prelude::*;
use crate::confirm::{agrees, confirm_answer, trimmed_of};
use crate::error::UpdateError;
use crate::guard::{detect_homebrew_install, install_is_managed, PathComponent};
use crate::release::{
    get_target_asset_from_release, has_fit, is_first_fit, render, render_bin_path, Platform, Release,
    ReleaseAsset,
};
use crate::version::{comparable, compare_versions, semver_compatible, semver_greater};

verus! {

/// The invocation: check only or apply, which release, and whether to ask.
#[derive(Debug)]
pub struct SelfUpdateCommand {
    /// Only report whether an update exists; change nothing.
    pub check: bool,
    /// Do not ask for confirmation before replacing the executable.
    pub no_confirm: bool,
    /// Pin the target release to this tag instead of the latest one.
    pub tag: Option<String>,
}

/// How a run ended.
#[derive(Debug)]
pub enum Outcome {
    /// The running version is already the target.
    UpToDate,
    /// Check mode found a release to update to.
    UpdateAvailable,
    /// The executable was replaced by the one of this release.
    Updated(Release),
    /// The run stopped on an error or a refusal.
    Failed(UpdateError),
}

/// What the driver is to do next.
#[derive(Debug)]
pub enum Action {
    /// Fetch the latest release.
    ResolveLatest,
    /// Fetch the release with exactly this tag.
    ResolveTag(String),
    /// Gather the executable's paths and the package manager's roots.
    CheckGuard,
    /// Prompt the user and read one line.
    AskConfirmation,
    /// Create the temporary workspace and download this asset into it.
    Download(ReleaseAsset),
    /// Extract this entry of the downloaded archive into the workspace.
    Extract(String),
    /// Replace the running executable by this extracted entry of the workspace.
    Replace(String),
    /// Stop; the workspace, if any, is removed.
    Stop(Outcome),
}

/// What the driver observed after performing an action.
#[derive(Debug)]
pub enum Event {
    /// The run starts.
    Begin,
    /// The executable's path and canonical path, and the package manager's roots.
    GuardInputs { paths: Vec<Vec<PathComponent>>, roots: Vec<Vec<PathComponent>> },
    /// The release host returned this release.
    ReleaseFound(Release),
    /// The release host has no such release.
    ReleaseMissing,
    /// The line the user typed at the prompt.
    Answered(String),
    /// The archive is on disk.
    Downloaded,
    /// The archive could not be fetched or written.
    DownloadFailed,
    /// The binary is extracted.
    Extracted,
    /// The binary could not be extracted.
    ExtractFailed,
    /// The executable was replaced.
    Replaced,
    /// The executable could not be replaced.
    ReplaceFailed,
}

/// Where a run stands.
#[derive(Debug)]
pub enum Phase {
    /// Nothing has happened yet.
    Start,
    /// Waiting for the executable's paths and the package manager's roots.
    AwaitGuard,
    /// Waiting for the release host's answer.
    AwaitRelease,
    /// Waiting for the user's answer about installing `asset` of `release`.
    AwaitConfirm { release: Release, asset: ReleaseAsset },
    /// Waiting for the archive of `release` to be downloaded.
    AwaitDownload { release: Release },
    /// Waiting for `entry` to be extracted from the archive.
    AwaitExtract { release: Release, entry: String },
    /// Waiting for the running executable to be replaced.
    AwaitReplace { release: Release },
    /// The run has stopped.
    Finished,
}

/// One update run.
#[derive(Debug)]
pub struct Session {
    pub command: SelfUpdateCommand,
    pub platform: Platform,
    pub phase: Phase,
    /// The chosen release is newer but crosses a compatibility boundary; the
    /// update still goes ahead.
    pub incompatible: bool,
}

/// The action that fetches the release the command asks for.
pub open spec fn resolves(c: SelfUpdateCommand, a: Action) -> bool {
    match c.tag {
        Some(t) => a == Action::ResolveTag(t),
        None => a == Action::ResolveLatest,
    }
}

/// Whether a release of version `version` is to be installed over `current`:
/// never when the strings are equal; always when a tag is pinned; else when
/// the release is newer. Fails where the versions cannot be compared.
pub open spec fn update_needed(c: SelfUpdateCommand, current: Seq<char>, version: Seq<char>) -> Result<bool, UpdateError> {
    if version == current {
        Ok(false)
    } else if c.tag is Some {
        Ok(true)
    } else if comparable(current, version) {
        Ok(semver_greater(current, version) == Some(true))
    } else {
        Err(UpdateError::InvalidVersion)
    }
}

/// The latest release is newer but not compatible.
pub open spec fn warns_incompatible(c: SelfUpdateCommand, current: Seq<char>, version: Seq<char>) -> bool {
    c.tag is None && version != current && comparable(current, version)
        && semver_greater(current, version) == Some(true) && semver_compatible(current, version) == Some(false)
}

/// The run ends with action `a` and outcome `o`.
pub open spec fn stops(s2: Session, a: Action, o: Outcome) -> bool {
    s2.phase is Finished && a == Action::Stop(o)
}

/// The entry of the archive that holds the binary of `release`.
pub open spec fn entry_for(p: Platform, release: Release) -> Seq<char> {
    render(p.bin_path_template@, p.bin_name@, release.version@, p.target@)
}

/// Outcome of a release found while awaiting one.
pub open spec fn on_release(s: Session, release: Release, s2: Session, a: Action) -> bool {
    let cur = s.platform.current_version@;
    s2.incompatible == warns_incompatible(s.command, cur, release.version@)
    && match update_needed(s.command, cur, release.version@) {
        Err(e) => stops(s2, a, Outcome::Failed(e)),
        Ok(false) => stops(s2, a, Outcome::UpToDate),
        Ok(true) => if s.command.check {
            stops(s2, a, Outcome::UpdateAvailable)
        } else if !has_fit(release.assets@, s.platform.target@, s.platform.archive_extension@) {
            stops(s2, a, Outcome::Failed(UpdateError::NoAsset))
        } else {
            exists|i: int| #[trigger] is_first_fit(release.assets@, i, s.platform.target@, s.platform.archive_extension@)
                && if s.command.no_confirm {
                    s2.phase == (Phase::AwaitDownload { release }) && a == Action::Download(release.assets@[i])
                } else {
                    s2.phase == (Phase::AwaitConfirm { release, asset: release.assets@[i] }) && a == Action::AskConfirmation
                }
        },
    }
}

/// The transition relation: from session `s`, event `e` leads to session
/// `s2` and action `a`. An event that the phase does not expect ends the run
/// with `OutOfSequence`.
pub open spec fn steps_to(s: Session, e: Event, s2: Session, a: Action) -> bool {
    s2.command == s.command && s2.platform == s.platform
    && (if e is ReleaseFound && s.phase is AwaitRelease { true } else { s2.incompatible == s.incompatible })
    && match (s.phase, e) {
        (Phase::Start, Event::Begin) => if s.command.check {
            s2.phase is AwaitRelease && resolves(s.command, a)
        } else {
            s2.phase is AwaitGuard && a == Action::CheckGuard
        },
        (Phase::AwaitGuard, Event::GuardInputs { paths, roots }) => if install_is_managed(paths@, roots@) {
            stops(s2, a, Outcome::Failed(UpdateError::Refused))
        } else {
            s2.phase is AwaitRelease && resolves(s.command, a)
        },
        (Phase::AwaitRelease, Event::ReleaseMissing) => stops(s2, a, Outcome::Failed(UpdateError::NotFound)),
        (Phase::AwaitRelease, Event::ReleaseFound(release)) => on_release(s, release, s2, a),
        (Phase::AwaitConfirm { release, asset }, Event::Answered(line)) => if agrees(trimmed_of(line@)) {
            s2.phase == (Phase::AwaitDownload { release }) && a == Action::Download(asset)
        } else {
            stops(s2, a, Outcome::Failed(UpdateError::UserCancelled))
        },
        (Phase::AwaitDownload { release }, Event::Downloaded) =>
            s2.phase matches Phase::AwaitExtract { release: r2, entry } && r2 == release
                && entry@ == entry_for(s.platform, release) && a == Action::Extract(entry),
        (Phase::AwaitDownload { release }, Event::DownloadFailed) => stops(s2, a, Outcome::Failed(UpdateError::Download)),
        (Phase::AwaitExtract { release, entry }, Event::Extracted) =>
            s2.phase == (Phase::AwaitReplace { release }) && a == Action::Replace(entry),
        (Phase::AwaitExtract { release, entry }, Event::ExtractFailed) => stops(s2, a, Outcome::Failed(UpdateError::Extraction)),
        (Phase::AwaitReplace { release }, Event::Replaced) => stops(s2, a, Outcome::Updated(release)),
        (Phase::AwaitReplace { release }, Event::ReplaceFailed) => stops(s2, a, Outcome::Failed(UpdateError::Replace)),
        _ => stops(s2, a, Outcome::Failed(UpdateError::OutOfSequence)),
    }
}

/// The process exit status of a finished run: 0 when up to date or updated,
/// 1 when check mode found an update or the user or the guard stopped the
/// run, 2 for any other failure.
pub open spec fn exit_code_spec(o: Outcome) -> u8 {
    match o {
        Outcome::UpToDate => 0,
        Outcome::Updated(_) => 0,
        Outcome::UpdateAvailable => 1,
        Outcome::Failed(e) => if e.is_expected_spec() { 1 } else { 2 },
    }
}

/// The process exit status of a finished run.
pub fn exit_code(outcome: &Outcome) -> (r: u8)
    ensures
        r == exit_code_spec(*outcome),
{
    match outcome {
        Outcome::UpToDate => 0,
        Outcome::Updated(_) => 0,
        Outcome::UpdateAvailable => 1,
        Outcome::Failed(e) => if e.is_expected() { 1 } else { 2 },
    }
}

fn resolve_action(command: &SelfUpdateCommand) -> (a: Action)
    ensures
        resolves(*command, a),
{
    match &command.tag {
        Some(t) => Action::ResolveTag(t.clone()),
        None => Action::ResolveLatest,
    }
}

/// Whether a release of `version` is to be installed, and whether it is newer
/// but incompatible.
fn decide_release(command: &SelfUpdateCommand, current: &String, version: &String) -> (r: Result<(bool, bool), UpdateError>)
    ensures
        r matches Ok((needed, _)) ==> update_needed(*command, current@, version@) == Ok::<bool, UpdateError>(needed),
        r matches Err(e) ==> update_needed(*command, current@, version@) == Err::<bool, UpdateError>(e),
        r matches Ok((_, warn)) ==> warn == warns_incompatible(*command, current@, version@),
        r is Err ==> !warns_incompatible(*command, current@, version@),
{
    if version.eq(current) {
        return Ok((false, false));
    }
    if command.tag.is_some() {
        return Ok((true, false));
    }
    match compare_versions(current.as_str(), version.as_str()) {
        Ok(c) => Ok((c.is_greater, c.is_greater && !c.is_compatible)),
        Err(e) => Err(e),
    }
}

fn finish(command: SelfUpdateCommand, platform: Platform, incompatible: bool, outcome: Outcome) -> (r: (Session, Action))
    ensures
        r.0.command == command,
        r.0.platform == platform,
        r.0.incompatible == incompatible,
        stops(r.0, r.1, outcome),
{
    (Session { command, platform, phase: Phase::Finished, incompatible }, Action::Stop(outcome))
}

impl Session {
    /// A run that has not started.
    pub fn new(command: SelfUpdateCommand, platform: Platform) -> (s: Session)
        ensures
            s.command == command,
            s.platform == platform,
            s.phase is Start,
            !s.incompatible,
    {
        Session { command, platform, phase: Phase::Start, incompatible: false }
    }

    fn on_release_found(command: SelfUpdateCommand, platform: Platform, release: Release) -> (r: (Session, Action))
        ensures
            r.0.command == command,
            r.0.platform == platform,
            on_release(Session { command, platform, phase: Phase::AwaitRelease, incompatible: false }, release, r.0, r.1),
    {
        let decided = decide_release(&command, &platform.current_version, &release.version);
        match decided {
            Err(e) => finish(command, platform, false, Outcome::Failed(e)),
            Ok((false, warn)) => finish(command, platform, warn, Outcome::UpToDate),
            Ok((true, warn)) => {
                if command.check {
                    return finish(command, platform, warn, Outcome::UpdateAvailable);
                }
                let picked = get_target_asset_from_release(&release, &platform);
                match picked {
                    Err(e) => finish(command, platform, warn, Outcome::Failed(e)),
                    Ok(a) => {
                        let asset = a.duplicate();
                        let ghost i = choose|i: int|
                            is_first_fit(release.assets@, i, platform.target@, platform.archive_extension@)
                                && *a == release.assets@[i];
                        if command.no_confirm {
                            let s = Session { command, platform, phase: Phase::AwaitDownload { release }, incompatible: warn };
                            assert(is_first_fit(release.assets@, i, s.platform.target@, s.platform.archive_extension@));
                            (s, Action::Download(asset))
                        } else {
                            let s = Session { command, platform, phase: Phase::AwaitConfirm { release, asset }, incompatible: warn };
                            assert(is_first_fit(release.assets@, i, s.platform.target@, s.platform.archive_extension@));
                            (s, Action::AskConfirmation)
                        }
                    },
                }
            },
        }
    }

    /// Advances the run by one event and says what to do next.
    pub fn step(self, event: Event) -> (r: (Session, Action))
        ensures
            steps_to(self, event, r.0, r.1),
    {
        let ghost old_self = self;
        let Session { command, platform, phase, incompatible } = self;
        match (phase, event) {
            (Phase::Start, Event::Begin) => {
                if command.check {
                    let a = resolve_action(&command);
                    (Session { command, platform, phase: Phase::AwaitRelease, incompatible }, a)
                } else {
                    (Session { command, platform, phase: Phase::AwaitGuard, incompatible }, Action::CheckGuard)
                }
            },
            (Phase::AwaitGuard, Event::GuardInputs { paths, roots }) => {
                if detect_homebrew_install(paths.as_slice(), roots.as_slice()) {
                    finish(command, platform, incompatible, Outcome::Failed(UpdateError::Refused))
                } else {
                    let a = resolve_action(&command);
                    (Session { command, platform, phase: Phase::AwaitRelease, incompatible }, a)
                }
            },
            (Phase::AwaitRelease, Event::ReleaseMissing) => {
                finish(command, platform, incompatible, Outcome::Failed(UpdateError::NotFound))
            },
            (Phase::AwaitRelease, Event::ReleaseFound(release)) => {
                let r = Session::on_release_found(command, platform, release);
                proof {
                    let probe = Session { command: old_self.command, platform: old_self.platform, phase: Phase::AwaitRelease, incompatible: false };
                    assert(on_release(probe, release, r.0, r.1));
                }
                r
            },
            (Phase::AwaitConfirm { release, asset }, Event::Answered(line)) => {
                match confirm_answer(line.as_str()) {
                    Ok(()) => (Session { command, platform, phase: Phase::AwaitDownload { release }, incompatible }, Action::Download(asset)),
                    Err(e) => finish(command, platform, incompatible, Outcome::Failed(e)),
                }
            },
            (Phase::AwaitDownload { release }, Event::Downloaded) => {
                let entry = render_bin_path(
                    platform.bin_path_template.as_str(),
                    platform.bin_name.as_str(),
                    release.version.as_str(),
                    platform.target.as_str(),
                );
                let a = Action::Extract(entry.clone());
                (Session { command, platform, phase: Phase::AwaitExtract { release, entry }, incompatible }, a)
            },
            (Phase::AwaitDownload { release }, Event::DownloadFailed) => {
                finish(command, platform, incompatible, Outcome::Failed(UpdateError::Download))
            },
            (Phase::AwaitExtract { release, entry }, Event::Extracted) => {
                (Session { command, platform, phase: Phase::AwaitReplace { release }, incompatible }, Action::Replace(entry))
            },
            (Phase::AwaitExtract { release, entry }, Event::ExtractFailed) => {
                finish(command, platform, incompatible, Outcome::Failed(UpdateError::Extraction))
            },
            (Phase::AwaitReplace { release }, Event::Replaced) => {
                finish(command, platform, incompatible, Outcome::Updated(release))
            },
            (Phase::AwaitReplace { release }, Event::ReplaceFailed) => {
                finish(command, platform, incompatible, Outcome::Failed(UpdateError::Replace))
            },
            (_, _) => finish(command, platform, incompatible, Outcome::Failed(UpdateError::OutOfSequence)),
        }
    }
}

/// In check mode, a run whose resolved release carries the running version
/// asks only for the release, then stops up to date with exit status 0: no
/// workspace is created and nothing is downloaded.
pub proof fn lemma_check_same_version_up_to_date(
    s0: Session,
    s1: Session,
    a1: Action,
    release: Release,
    s2: Session,
    a2: Action,
)
    requires
        s0.phase is Start,
        s0.command.check,
        steps_to(s0, Event::Begin, s1, a1),
        release.version@ == s0.platform.current_version@,
        steps_to(s1, Event::ReleaseFound(release), s2, a2),
    ensures
        a1 is ResolveLatest || a1 is ResolveTag,
        s2.phase is Finished,
        a2 == Action::Stop(Outcome::UpToDate),
        exit_code_spec(Outcome::UpToDate) == 0,
{
}

/// In apply mode, a run on a package-manager install is refused right after
/// the install is probed, before any release is resolved, any workspace is
/// created or anything is downloaded, and exits with a non-zero status.
pub proof fn lemma_managed_install_refused_first(
    s0: Session,
    s1: Session,
    a1: Action,
    paths: Vec<Vec<PathComponent>>,
    roots: Vec<Vec<PathComponent>>,
    s2: Session,
    a2: Action,
)
    requires
        s0.phase is Start,
        !s0.command.check,
        steps_to(s0, Event::Begin, s1, a1),
        install_is_managed(paths@, roots@),
        steps_to(s1, Event::GuardInputs { paths, roots }, s2, a2),
    ensures
        a1 == Action::CheckGuard,
        s2.phase is Finished,
        a2 == Action::Stop(Outcome::Failed(UpdateError::Refused)),
        exit_code_spec(Outcome::Failed(UpdateError::Refused)) != 0,
{
}

/// A download is only ever asked for while awaiting the release (then in apply
/// mode, and only for a release that needs installing) or on an answer at the
/// confirmation prompt.
pub proof fn lemma_download_only_after_guard(s: Session, e: Event, s2: Session, a: Action)
    requires
        steps_to(s, e, s2, a),
        a is Download,
    ensures
        s.phase is AwaitRelease || s.phase is AwaitConfirm,
        s.phase is AwaitRelease ==> !s.command.check,
        s.phase is AwaitRelease ==> (e matches Event::ReleaseFound(r)
            && update_needed(s.command, s.platform.current_version@, r.version@) == Ok::<bool, UpdateError>(true)),
        s.phase is AwaitConfirm ==> (e matches Event::Answered(line) && agrees(trimmed_of(line@))),
{
}

} // verus!
