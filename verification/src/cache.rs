//! The local artifact cache: a verified state machine that validates the
//! remembered artifact path and, on a miss, drives resolution, download,
//! extraction and stale-version cleanup.
//!
//! The machine itself performs no effect.  Each transition consumes an
//! [`Event`] (the host's answer to the previous action) and emits the next
//! [`Action`] for the host to perform; the transition relation is the spec
//! function [`next`], and `Cache::step` is proved to follow it exactly.

use vstd::prelude::*;
use vstd::string::StringExecFns;

use crate::platform::{Arch, Os, asset_filename, asset_filename_spec};
use crate::release::{Release, ReleaseModel, first_match, lemma_first_match_found, select_asset};

verus! {

/// Why a resolve-or-reuse cycle failed.  Every failure is scoped to the one
/// cycle; the cached pointer stays in a retryable state.
pub enum ResolveError {
    /// The release directory had no qualifying release.
    ReleaseLookupFailed(String),
    /// The platform pair has no entry in the asset-naming table.
    UnsupportedPlatform,
    /// The release has no asset with the expected filename.
    NoMatchingAsset,
    /// Download or extraction failed; no partial result is kept.
    FetchFailed(String),
    /// The working directory could not be enumerated for cleanup.
    ListDirFailed(String),
    /// The artifact path could not be resolved to an absolute path.
    AbsolutizeFailed(String),
}

/// The mathematical value of a [`ResolveError`].
pub enum ResolveErrorModel {
    ReleaseLookupFailed(Seq<char>),
    UnsupportedPlatform,
    NoMatchingAsset,
    FetchFailed(Seq<char>),
    ListDirFailed(Seq<char>),
    AbsolutizeFailed(Seq<char>),
}

impl View for ResolveError {
    type V = ResolveErrorModel;

    open spec fn view(&self) -> ResolveErrorModel {
        match self {
            ResolveError::ReleaseLookupFailed(m) => ResolveErrorModel::ReleaseLookupFailed(m@),
            ResolveError::UnsupportedPlatform => ResolveErrorModel::UnsupportedPlatform,
            ResolveError::NoMatchingAsset => ResolveErrorModel::NoMatchingAsset,
            ResolveError::FetchFailed(m) => ResolveErrorModel::FetchFailed(m@),
            ResolveError::ListDirFailed(m) => ResolveErrorModel::ListDirFailed(m@),
            ResolveError::AbsolutizeFailed(m) => ResolveErrorModel::AbsolutizeFailed(m@),
        }
    }
}

/// The human-readable failure reason reported to the host.
pub open spec fn message_spec(e: ResolveErrorModel) -> Seq<char> {
    match e {
        ResolveErrorModel::ReleaseLookupFailed(m) => "release lookup failed: "@ + m,
        ResolveErrorModel::UnsupportedPlatform => "unsupported platform or architecture"@,
        ResolveErrorModel::NoMatchingAsset => "no matching asset found"@,
        ResolveErrorModel::FetchFailed(m) => "download error "@ + m,
        ResolveErrorModel::ListDirFailed(m) => "failed to list working directory "@ + m,
        ResolveErrorModel::AbsolutizeFailed(m) => "failed to get absolute path "@ + m,
    }
}

impl ResolveError {
    /// Renders the failure as the descriptive string handed to the host.
    pub fn message(&self) -> (r: String)
        ensures
            r@ == message_spec(self@),
    {
        match self {
            ResolveError::ReleaseLookupFailed(m) => {
                let mut r = "release lookup failed: ".to_owned();
                r.append(m.as_str());
                r
            },
            ResolveError::UnsupportedPlatform => "unsupported platform or architecture".to_owned(),
            ResolveError::NoMatchingAsset => "no matching asset found".to_owned(),
            ResolveError::FetchFailed(m) => {
                let mut r = "download error ".to_owned();
                r.append(m.as_str());
                r
            },
            ResolveError::ListDirFailed(m) => {
                let mut r = "failed to list working directory ".to_owned();
                r.append(m.as_str());
                r
            },
            ResolveError::AbsolutizeFailed(m) => {
                let mut r = "failed to get absolute path ".to_owned();
                r.append(m.as_str());
                r
            },
        }
    }
}

/// The on-disk directory one release extracts into, named after its version.
pub open spec fn version_dir_spec(version: Seq<char>) -> Seq<char> {
    "azure-mcp-"@ + version
}

/// The extracted artifact's path inside the working directory.  Only the
/// Windows artifact carries an executable-file extension.
pub open spec fn artifact_rel_spec(os: Os, version: Seq<char>) -> Seq<char> {
    if os is Windows {
        version_dir_spec(version) + "/package/dist/azmcp.exe"@
    } else {
        version_dir_spec(version) + "/package/dist/azmcp"@
    }
}

/// Computes the version directory name for a release version.
pub fn version_dir_name(version: &str) -> (r: String)
    ensures
        r@ == version_dir_spec(version@),
{
    let mut r = "azure-mcp-".to_owned();
    r.append(version);
    r
}

/// Computes the expected artifact path for a platform and a release version.
pub fn artifact_rel_path(os: Os, version: &str) -> (r: String)
    ensures
        r@ == artifact_rel_spec(os, version@),
{
    let mut r = version_dir_name(version);
    match os {
        Os::Windows => r.append("/package/dist/azmcp.exe"),
        _ => r.append("/package/dist/azmcp"),
    }
    r
}

/// The working-directory entries cleanup deletes: every entry whose name is
/// not the current version directory, in the order listed.
pub open spec fn removals(entries: Seq<Seq<char>>, keep: Seq<char>) -> Seq<Seq<char>>
    decreases entries.len(),
{
    if entries.len() == 0 {
        Seq::empty()
    } else if entries.last() == keep {
        removals(entries.drop_last(), keep)
    } else {
        removals(entries.drop_last(), keep) + seq![entries.last()]
    }
}

/// Cleanup retains only the current version: the entries scheduled for
/// deletion are exactly the listed entries other than the current version
/// directory.
pub proof fn lemma_cleanup_retains_only_current(entries: Seq<Seq<char>>, keep: Seq<char>)
    ensures
        forall|i: int|
            0 <= i < removals(entries, keep).len() ==> #[trigger] removals(entries, keep)[i]
                != keep && entries.contains(removals(entries, keep)[i]),
        forall|i: int|
            0 <= i < entries.len() && #[trigger] entries[i] != keep ==> removals(
                entries,
                keep,
            ).contains(entries[i]),
    decreases entries.len(),
{
    if entries.len() > 0 {
        let dl = entries.drop_last();
        let out = removals(entries, keep);
        let out_dl = removals(dl, keep);
        lemma_cleanup_retains_only_current(dl, keep);
        assert forall|i: int| 0 <= i < out.len() implies #[trigger] out[i] != keep
            && entries.contains(out[i]) by {
            if i < out_dl.len() {
                assert(out[i] == out_dl[i]);
                let j = choose|j: int| 0 <= j < dl.len() && dl[j] == out_dl[i];
                assert(entries[j] == out[i]);
            } else {
                assert(out[i] == entries.last());
                assert(entries[entries.len() - 1] == entries.last());
            }
        }
        assert forall|i: int| 0 <= i < entries.len() && #[trigger] entries[i] != keep implies out
            .contains(entries[i]) by {
            if i < entries.len() - 1 {
                assert(dl[i] == entries[i]);
                let j = choose|j: int| 0 <= j < out_dl.len() && out_dl[j] == dl[i];
                assert(out[j] == entries[i]);
            } else {
                assert(out[out.len() - 1] == entries.last());
            }
        }
    }
}

/// The view of a list of names.
pub open spec fn names_view(v: Seq<String>) -> Seq<Seq<char>> {
    v.map_values(|s: String| s@)
}

/// Lists the working-directory entries that cleanup should delete: every
/// entry other than the current version directory.  Deletion itself is
/// best-effort and performed by the host.
pub fn entries_to_remove(entries: &Vec<String>, keep: &String) -> (r: Vec<String>)
    ensures
        names_view(r@) == removals(names_view(entries@), keep@),
{
    let ghost all = names_view(entries@);
    let mut r: Vec<String> = Vec::new();
    let mut i: usize = 0;
    assert(names_view(r@) =~= removals(all.take(0), keep@));
    while i < entries.len()
        invariant
            0 <= i <= entries.len(),
            all == names_view(entries@),
            names_view(r@) == removals(all.take(i as int), keep@),
        decreases entries.len() - i,
    {
        let ghost prefix = all.take(i as int);
        let ghost prefix1 = all.take(i + 1 as int);
        proof {
            assert(prefix1.drop_last() =~= prefix);
            assert(prefix1.last() == entries@[i as int]@);
        }
        if !(entries[i] == *keep) {
            let e = entries[i].clone();
            r.push(e);
            proof {
                assert(names_view(r@) =~= removals(prefix, keep@) + seq![entries@[i as int]@]);
            }
        }
        i += 1;
    }
    proof {
        assert(all.take(entries@.len() as int) =~= all);
    }
    r
}

/// Where a resolve-or-reuse cycle stands: which answer from the host the
/// machine is waiting for, and what it has resolved so far.
pub enum Phase {
    /// No cycle is running.
    Idle,
    /// Waiting for a stat of the cached pointer's path.
    PointerStat { path: String },
    /// Waiting for the platform descriptor.
    PlatformQuery,
    /// Waiting for the latest qualifying release.
    ReleaseQuery { os: Os, arch: Arch },
    /// Waiting for a stat of the expected extracted artifact.
    ArtifactStat { url: String, version_dir: String, artifact: String },
    /// Waiting for the asset to be downloaded and extracted.
    DownloadWait { version_dir: String, artifact: String },
    /// Waiting for the working-directory listing.
    ListWait { version_dir: String, artifact: String },
    /// Waiting for the stale entries to be deleted (best-effort).
    RemoveWait { artifact: String },
    /// Waiting for the artifact path to be made absolute.
    AbsolutizeWait,
}

/// The mathematical value of a [`Phase`].
pub enum PhaseModel {
    Idle,
    PointerStat { path: Seq<char> },
    PlatformQuery,
    ReleaseQuery { os: Os, arch: Arch },
    ArtifactStat { url: Seq<char>, version_dir: Seq<char>, artifact: Seq<char> },
    DownloadWait { version_dir: Seq<char>, artifact: Seq<char> },
    ListWait { version_dir: Seq<char>, artifact: Seq<char> },
    RemoveWait { artifact: Seq<char> },
    AbsolutizeWait,
}

impl View for Phase {
    type V = PhaseModel;

    open spec fn view(&self) -> PhaseModel {
        match self {
            Phase::Idle => PhaseModel::Idle,
            Phase::PointerStat { path } => PhaseModel::PointerStat { path: path@ },
            Phase::PlatformQuery => PhaseModel::PlatformQuery,
            Phase::ReleaseQuery { os, arch } => PhaseModel::ReleaseQuery { os: *os, arch: *arch },
            Phase::ArtifactStat { url, version_dir, artifact } => PhaseModel::ArtifactStat {
                url: url@,
                version_dir: version_dir@,
                artifact: artifact@,
            },
            Phase::DownloadWait { version_dir, artifact } => PhaseModel::DownloadWait {
                version_dir: version_dir@,
                artifact: artifact@,
            },
            Phase::ListWait { version_dir, artifact } => PhaseModel::ListWait {
                version_dir: version_dir@,
                artifact: artifact@,
            },
            Phase::RemoveWait { artifact } => PhaseModel::RemoveWait { artifact: artifact@ },
            Phase::AbsolutizeWait => PhaseModel::AbsolutizeWait,
        }
    }
}

/// What the host performs for the machine.  Every effect of a cycle is one
/// of these; the machine only decides.
pub enum Action {
    /// Ask whether the path exists as a regular file.
    Stat(String),
    /// Read the platform descriptor from the execution environment.
    GetPlatform,
    /// Ask the release directory for the latest qualifying release.
    GetRelease,
    /// Download the asset at `url` and extract the gzip-compressed tar
    /// archive into `into_dir`.
    Download { url: String, into_dir: String },
    /// List the entries of the working directory.
    ListDir,
    /// Delete the named entries recursively, best-effort: individual
    /// failures are swallowed and do not abort the cycle.
    Remove(Vec<String>),
    /// Resolve the path to an absolute path.
    Absolutize(String),
    /// The cycle succeeded: the artifact is at this path.
    Done(String),
    /// The cycle failed; the cached pointer is unchanged.
    Fail(ResolveError),
}

/// The mathematical value of an [`Action`].
pub enum ActionModel {
    Stat(Seq<char>),
    GetPlatform,
    GetRelease,
    Download { url: Seq<char>, into_dir: Seq<char> },
    ListDir,
    Remove(Seq<Seq<char>>),
    Absolutize(Seq<char>),
    Done(Seq<char>),
    Fail(ResolveErrorModel),
}

impl View for Action {
    type V = ActionModel;

    open spec fn view(&self) -> ActionModel {
        match self {
            Action::Stat(p) => ActionModel::Stat(p@),
            Action::GetPlatform => ActionModel::GetPlatform,
            Action::GetRelease => ActionModel::GetRelease,
            Action::Download { url, into_dir } => ActionModel::Download {
                url: url@,
                into_dir: into_dir@,
            },
            Action::ListDir => ActionModel::ListDir,
            Action::Remove(v) => ActionModel::Remove(names_view(v@)),
            Action::Absolutize(p) => ActionModel::Absolutize(p@),
            Action::Done(p) => ActionModel::Done(p@),
            Action::Fail(e) => ActionModel::Fail(e@),
        }
    }
}

/// The host's answer to the previous action.
pub enum Event {
    /// Whether the path exists as a regular file.
    StatResult(bool),
    /// The platform descriptor.
    PlatformResult(Os, Arch),
    /// The latest qualifying release, or the directory's failure reason.
    ReleaseResult(Result<Release, String>),
    /// Whether download and extraction succeeded, with the failure reason.
    DownloadResult(Result<(), String>),
    /// The working-directory entry names, or the listing's failure reason.
    ListDirResult(Result<Vec<String>, String>),
    /// The best-effort deletions were attempted.
    RemoveDone,
    /// The absolute path, or the resolution's failure reason.
    AbsolutizeResult(Result<String, String>),
}

/// The mathematical value of an [`Event`].
pub enum EventModel {
    StatResult(bool),
    PlatformResult(Os, Arch),
    ReleaseResult(Result<ReleaseModel, Seq<char>>),
    DownloadResult(Result<(), Seq<char>>),
    ListDirResult(Result<Seq<Seq<char>>, Seq<char>>),
    RemoveDone,
    AbsolutizeResult(Result<Seq<char>, Seq<char>>),
}

impl View for Event {
    type V = EventModel;

    open spec fn view(&self) -> EventModel {
        match self {
            Event::StatResult(b) => EventModel::StatResult(*b),
            Event::PlatformResult(os, arch) => EventModel::PlatformResult(*os, *arch),
            Event::ReleaseResult(r) => EventModel::ReleaseResult(
                match r {
                    Ok(rel) => Ok(rel@),
                    Err(m) => Err(m@),
                },
            ),
            Event::DownloadResult(r) => EventModel::DownloadResult(
                match r {
                    Ok(u) => Ok(*u),
                    Err(m) => Err(m@),
                },
            ),
            Event::ListDirResult(r) => EventModel::ListDirResult(
                match r {
                    Ok(entries) => Ok(names_view(entries@)),
                    Err(m) => Err(m@),
                },
            ),
            Event::RemoveDone => EventModel::RemoveDone,
            Event::AbsolutizeResult(r) => EventModel::AbsolutizeResult(
                match r {
                    Ok(p) => Ok(p@),
                    Err(m) => Err(m@),
                },
            ),
        }
    }
}

/// One transition's result: the machine's new phase, the cached pointer
/// after the transition, and the action handed to the host.
pub struct StepOutcome {
    pub phase: PhaseModel,
    pub pointer: Option<Seq<char>>,
    pub action: ActionModel,
}

/// What starting a cycle does: a set pointer is re-verified first; an empty
/// one goes straight to resolution.
pub open spec fn start_spec(pointer: Option<Seq<char>>) -> (PhaseModel, ActionModel) {
    match pointer {
        Some(p) => (PhaseModel::PointerStat { path: p }, ActionModel::Stat(p)),
        None => (PhaseModel::PlatformQuery, ActionModel::GetPlatform),
    }
}

/// The transition relation of the cache machine.  `None` means the event
/// does not answer the action the phase is waiting for; the machine is
/// never driven that way.
pub open spec fn next(pointer: Option<Seq<char>>, phase: PhaseModel, ev: EventModel) -> Option<
    StepOutcome,
> {
    match (phase, ev) {
        (PhaseModel::PointerStat { path }, EventModel::StatResult(ok)) => Some(
            if ok {
                // Fast path: the remembered artifact is still a regular file.
                StepOutcome { phase: PhaseModel::Idle, pointer, action: ActionModel::Done(path) }
            } else {
                // The hint went stale: re-resolve; the pointer is not cleared.
                StepOutcome {
                    phase: PhaseModel::PlatformQuery,
                    pointer,
                    action: ActionModel::GetPlatform,
                }
            },
        ),
        (PhaseModel::PlatformQuery, EventModel::PlatformResult(os, arch)) => Some(
            StepOutcome {
                phase: PhaseModel::ReleaseQuery { os, arch },
                pointer,
                action: ActionModel::GetRelease,
            },
        ),
        (PhaseModel::ReleaseQuery { os, arch }, EventModel::ReleaseResult(res)) => Some(
            match res {
                Err(m) => StepOutcome {
                    phase: PhaseModel::Idle,
                    pointer,
                    action: ActionModel::Fail(ResolveErrorModel::ReleaseLookupFailed(m)),
                },
                Ok(rel) => match first_match(
                    rel.assets,
                    asset_filename_spec(os, arch, rel.version),
                ) {
                    None => StepOutcome {
                        phase: PhaseModel::Idle,
                        pointer,
                        action: ActionModel::Fail(ResolveErrorModel::NoMatchingAsset),
                    },
                    Some(i) => StepOutcome {
                        phase: PhaseModel::ArtifactStat {
                            url: rel.assets[i].download_url,
                            version_dir: version_dir_spec(rel.version),
                            artifact: artifact_rel_spec(os, rel.version),
                        },
                        pointer,
                        action: ActionModel::Stat(artifact_rel_spec(os, rel.version)),
                    },
                },
            },
        ),
        (PhaseModel::ArtifactStat { url, version_dir, artifact }, EventModel::StatResult(ok)) => Some(
            if ok {
                // Cold-start reuse: the artifact is already on disk; skip the
                // download and go straight to cleanup.
                StepOutcome {
                    phase: PhaseModel::ListWait { version_dir, artifact },
                    pointer,
                    action: ActionModel::ListDir,
                }
            } else {
                StepOutcome {
                    phase: PhaseModel::DownloadWait { version_dir, artifact },
                    pointer,
                    action: ActionModel::Download { url, into_dir: version_dir },
                }
            },
        ),
        (PhaseModel::DownloadWait { version_dir, artifact }, EventModel::DownloadResult(res)) => Some(
            match res {
                Err(m) => StepOutcome {
                    phase: PhaseModel::Idle,
                    pointer,
                    action: ActionModel::Fail(ResolveErrorModel::FetchFailed(m)),
                },
                Ok(_) => StepOutcome {
                    phase: PhaseModel::ListWait { version_dir, artifact },
                    pointer,
                    action: ActionModel::ListDir,
                },
            },
        ),
        (PhaseModel::ListWait { version_dir, artifact }, EventModel::ListDirResult(res)) => Some(
            match res {
                Err(m) => StepOutcome {
                    phase: PhaseModel::Idle,
                    pointer,
                    action: ActionModel::Fail(ResolveErrorModel::ListDirFailed(m)),
                },
                Ok(entries) => StepOutcome {
                    phase: PhaseModel::RemoveWait { artifact },
                    pointer,
                    action: ActionModel::Remove(removals(entries, version_dir)),
                },
            },
        ),
        (PhaseModel::RemoveWait { artifact }, EventModel::RemoveDone) => Some(
            StepOutcome {
                phase: PhaseModel::AbsolutizeWait,
                pointer,
                action: ActionModel::Absolutize(artifact),
            },
        ),
        (PhaseModel::AbsolutizeWait, EventModel::AbsolutizeResult(res)) => Some(
            match res {
                Err(m) => StepOutcome {
                    phase: PhaseModel::Idle,
                    pointer,
                    action: ActionModel::Fail(ResolveErrorModel::AbsolutizeFailed(m)),
                },
                // The one transition that writes the pointer.
                Ok(abs) => StepOutcome {
                    phase: PhaseModel::Idle,
                    pointer: Some(abs),
                    action: ActionModel::Done(abs),
                },
            },
        ),
        _ => None,
    }
}

/// The view of the cached pointer.
pub open spec fn pointer_view(p: Option<String>) -> Option<Seq<char>> {
    match p {
        Some(s) => Some(s@),
        None => None,
    }
}

/// The local artifact cache: the remembered last known-good artifact path
/// (a hint, re-verified on every cycle, never trusted blindly) and the
/// phase of the cycle in progress.
pub struct Cache {
    pointer: Option<String>,
    phase: Phase,
}

/// The mathematical value of a [`Cache`].
pub struct CacheModel {
    pub pointer: Option<Seq<char>>,
    pub phase: PhaseModel,
}

impl View for Cache {
    type V = CacheModel;

    closed spec fn view(&self) -> CacheModel {
        CacheModel { pointer: pointer_view(self.pointer), phase: self.phase@ }
    }
}

impl Cache {
    /// A fresh cache: the pointer starts empty and no cycle is running.
    pub fn new() -> (r: Cache)
        ensures
            r@.pointer is None,
            r@.phase is Idle,
    {
        Cache { pointer: None, phase: Phase::Idle }
    }

    /// The remembered artifact path, if any.
    pub fn cached_path(&self) -> (r: &Option<String>)
        ensures
            pointer_view(*r) == self@.pointer,
    {
        &self.pointer
    }

    /// Begins a resolve-or-reuse cycle and returns the first action the
    /// host must perform.
    pub fn start(&mut self) -> (a: Action)
        requires
            old(self)@.phase is Idle,
        ensures
            final(self)@.pointer == old(self)@.pointer,
            final(self)@.phase == start_spec(old(self)@.pointer).0,
            a@ == start_spec(old(self)@.pointer).1,
    {
        match &self.pointer {
            Some(p) => {
                let path = p.clone();
                self.phase = Phase::PointerStat { path: path.clone() };
                Action::Stat(path)
            },
            None => {
                self.phase = Phase::PlatformQuery;
                Action::GetPlatform
            },
        }
    }

    /// Performs one transition: consumes the host's answer to the previous
    /// action and returns the next action, exactly as [`next`] says.
    pub fn step(&mut self, ev: Event) -> (a: Action)
        requires
            next(old(self)@.pointer, old(self)@.phase, ev@) is Some,
        ensures
            next(old(self)@.pointer, old(self)@.phase, ev@) == Some(
                StepOutcome {
                    phase: final(self)@.phase,
                    pointer: final(self)@.pointer,
                    action: a@,
                },
            ),
    {
        let mut ph = Phase::Idle;
        core::mem::swap(&mut ph, &mut self.phase);
        match (ph, ev) {
            (Phase::PointerStat { path }, Event::StatResult(true)) => {
                self.phase = Phase::Idle;
                Action::Done(path)
            },
            (Phase::PointerStat { .. }, Event::StatResult(false)) => {
                self.phase = Phase::PlatformQuery;
                Action::GetPlatform
            },
            (Phase::PlatformQuery, Event::PlatformResult(os, arch)) => {
                self.phase = Phase::ReleaseQuery { os, arch };
                Action::GetRelease
            },
            (Phase::ReleaseQuery { .. }, Event::ReleaseResult(Err(m))) => {
                self.phase = Phase::Idle;
                Action::Fail(ResolveError::ReleaseLookupFailed(m))
            },
            (Phase::ReleaseQuery { os, arch }, Event::ReleaseResult(Ok(rel))) => {
                let name = asset_filename(os, arch, rel.version.as_str());
                match select_asset(&rel.assets, &name) {
                    None => {
                        self.phase = Phase::Idle;
                        Action::Fail(ResolveError::NoMatchingAsset)
                    },
                    Some(i) => {
                        proof {
                            lemma_first_match_found(rel@.assets, name@, i as int);
                        }
                        let url = rel.assets[i].download_url.clone();
                        let version_dir = version_dir_name(rel.version.as_str());
                        let artifact = artifact_rel_path(os, rel.version.as_str());
                        self.phase = Phase::ArtifactStat {
                            url,
                            version_dir,
                            artifact: artifact.clone(),
                        };
                        Action::Stat(artifact)
                    },
                }
            },
            (Phase::ArtifactStat { version_dir, artifact, .. }, Event::StatResult(true)) => {
                self.phase = Phase::ListWait { version_dir, artifact };
                Action::ListDir
            },
            (Phase::ArtifactStat { url, version_dir, artifact }, Event::StatResult(false)) => {
                let into_dir = version_dir.clone();
                self.phase = Phase::DownloadWait { version_dir, artifact };
                Action::Download { url, into_dir }
            },
            (Phase::DownloadWait { .. }, Event::DownloadResult(Err(m))) => {
                self.phase = Phase::Idle;
                Action::Fail(ResolveError::FetchFailed(m))
            },
            (Phase::DownloadWait { version_dir, artifact }, Event::DownloadResult(Ok(()))) => {
                self.phase = Phase::ListWait { version_dir, artifact };
                Action::ListDir
            },
            (Phase::ListWait { .. }, Event::ListDirResult(Err(m))) => {
                self.phase = Phase::Idle;
                Action::Fail(ResolveError::ListDirFailed(m))
            },
            (Phase::ListWait { version_dir, artifact }, Event::ListDirResult(Ok(entries))) => {
                let to_remove = entries_to_remove(&entries, &version_dir);
                self.phase = Phase::RemoveWait { artifact };
                Action::Remove(to_remove)
            },
            (Phase::RemoveWait { artifact }, Event::RemoveDone) => {
                self.phase = Phase::AbsolutizeWait;
                Action::Absolutize(artifact)
            },
            (Phase::AbsolutizeWait, Event::AbsolutizeResult(Err(m))) => {
                self.phase = Phase::Idle;
                Action::Fail(ResolveError::AbsolutizeFailed(m))
            },
            (Phase::AbsolutizeWait, Event::AbsolutizeResult(Ok(abs))) => {
                self.pointer = Some(abs.clone());
                self.phase = Phase::Idle;
                Action::Done(abs)
            },
            (_, _) => {
                proof {
                    assert(false);
                }
                Action::ListDir
            },
        }
    }
}

/// Idempotent fast path: when the cached pointer refers to a path that the
/// filesystem confirms as a regular file, a cycle is exactly one stat of
/// that path followed by its return.  No release query, no download and no
/// cleanup action is issued, and the pointer is unchanged, so a second
/// cycle behaves identically.
pub proof fn lemma_fast_path_idempotent(pointer: Option<Seq<char>>, p: Seq<char>)
    requires
        pointer == Some(p),
    ensures
        start_spec(pointer).1 == ActionModel::Stat(p),
        next(pointer, start_spec(pointer).0, EventModel::StatResult(true)) == Some(
            StepOutcome { phase: PhaseModel::Idle, pointer, action: ActionModel::Done(p) },
        ),
{
}

/// The release directory is queried in exactly one transition: the one
/// that consumes the platform descriptor.  A platform the naming table
/// rejected would therefore fail before any network action is issued.
pub proof fn lemma_release_query_needs_platform(
    pointer: Option<Seq<char>>,
    phase: PhaseModel,
    ev: EventModel,
)
    requires
        next(pointer, phase, ev) is Some,
        next(pointer, phase, ev)->Some_0.action is GetRelease,
    ensures
        phase is PlatformQuery,
        ev is PlatformResult,
{
}

/// Cold-start reuse: with an empty pointer but the release's expected
/// artifact already on disk, a cycle resolves the release, finds the
/// artifact by a stat, cleans up stale versions, and returns the absolute
/// path — the download action is never issued, and the pointer ends on the
/// returned path.
pub proof fn lemma_cold_start_reuse(
    os: Os,
    arch: Arch,
    rel: ReleaseModel,
    i: int,
    entries: Seq<Seq<char>>,
    abs: Seq<char>,
)
    requires
        first_match(rel.assets, asset_filename_spec(os, arch, rel.version)) == Some(i),
    ensures
        ({
            let s = start_spec(None);
            let o1 = next(None, s.0, EventModel::PlatformResult(os, arch))->Some_0;
            let o2 = next(None, o1.phase, EventModel::ReleaseResult(Ok(rel)))->Some_0;
            let o3 = next(None, o2.phase, EventModel::StatResult(true))->Some_0;
            let o4 = next(None, o3.phase, EventModel::ListDirResult(Ok(entries)))->Some_0;
            let o5 = next(None, o4.phase, EventModel::RemoveDone)->Some_0;
            let o6 = next(None, o5.phase, EventModel::AbsolutizeResult(Ok(abs)))->Some_0;
            &&& s.1 == ActionModel::GetPlatform
            &&& o1.action == ActionModel::GetRelease
            &&& o2.action == ActionModel::Stat(artifact_rel_spec(os, rel.version))
            &&& o3.action == ActionModel::ListDir
            &&& o4.action == ActionModel::Remove(removals(entries, version_dir_spec(rel.version)))
            &&& o5.action == ActionModel::Absolutize(artifact_rel_spec(os, rel.version))
            &&& o6.action == ActionModel::Done(abs)
            &&& o6.pointer == Some(abs)
            &&& o6.phase is Idle
        }),
{
}

/// Corrupt download does not poison the cache: a failed download or
/// extraction ends the cycle with a fetch failure, and the cached pointer
/// is exactly as it was before the cycle — unset, or still the prior valid
/// artifact — so the next cycle retries resolution.
pub proof fn lemma_fetch_failure_keeps_pointer(
    pointer: Option<Seq<char>>,
    version_dir: Seq<char>,
    artifact: Seq<char>,
    m: Seq<char>,
)
    ensures
        next(
            pointer,
            PhaseModel::DownloadWait { version_dir, artifact },
            EventModel::DownloadResult(Err(m)),
        ) == Some(
            StepOutcome {
                phase: PhaseModel::Idle,
                pointer,
                action: ActionModel::Fail(ResolveErrorModel::FetchFailed(m)),
            },
        ),
{
}

/// The pointer moves only on success: every transition whose action is not
/// `Done` leaves the cached pointer unchanged, and when it is `Done` the
/// pointer is either unchanged (fast path) or set to the returned path.
pub proof fn lemma_pointer_moves_only_on_done(
    pointer: Option<Seq<char>>,
    phase: PhaseModel,
    ev: EventModel,
)
    requires
        next(pointer, phase, ev) is Some,
    ensures
        ({
            let o = next(pointer, phase, ev)->Some_0;
            &&& (!(o.action is Done) ==> o.pointer == pointer)
            &&& (o.action is Done ==> o.pointer == pointer || o.pointer == Some(
                o.action->Done_0,
            ))
        }),
{
}

} // verus!
