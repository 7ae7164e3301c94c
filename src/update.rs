//! The update applier: a state machine that decides, from the installed
//! version and what the release channel hands over, when to download,
//! verify, unpack, build, install and restart. The caller performs each
//! action and reports back what happened.

use vstd::prelude::*;
use crate::archive::{
    artifact_name, signature_name, signature_path_for, source_archive_name, SOURCE_ARCHIVE_PREFIX,
};
use crate::keys::TrustedPublicKey;
use crate::signing::{verdict, verify_release, ReleaseSignature, SignatureView, VerificationError};
use crate::text::same_text;

verus! {

/// The step of an update run.
#[derive(Debug, Clone, Copy, PartialEq, Eq, Structural)]
pub enum Stage {
    Idle,
    Checking,
    Downloading,
    Verifying,
    Unpacking,
    Building,
    Installing,
    Restarting,
}

/// Why an update run stopped without installing.
#[derive(Debug, Clone, Copy, PartialEq, Eq, Structural)]
pub enum UpdateError {
    /// Reading, writing or fetching failed.
    Io,
    /// The signature record's format is not supported.
    UnsupportedFormat,
    /// The artifact does not match the digest in its record.
    ChecksumMismatch,
    /// The signature does not check out under the trusted key.
    SignatureInvalid,
    /// The record is for another release than the one announced.
    VersionMismatch,
    /// Rebuilding from the verified source failed.
    BuildFailure,
    /// Another update run holds the lock.
    LockHeld,
    /// The release does not offer the source archive or its signature.
    MissingAsset,
    /// The unpacked archive has no source directory.
    MissingSourceRoot,
    /// This host has no trusted key, so nothing can be verified.
    NoTrustedKey,
    /// An outcome arrived that does not belong to the current step.
    UnexpectedEvent,
}

/// The update error that a verification error becomes.
pub open spec fn from_verification(e: VerificationError) -> UpdateError {
    match e {
        VerificationError::UnsupportedFormat => UpdateError::UnsupportedFormat,
        VerificationError::ChecksumMismatch => UpdateError::ChecksumMismatch,
        VerificationError::SignatureInvalid => UpdateError::SignatureInvalid,
        VerificationError::VersionMismatch => UpdateError::VersionMismatch,
    }
}

/// The update error that a verification error becomes.
pub fn update_error_of(e: VerificationError) -> (r: UpdateError)
    ensures
        r == from_verification(e),
{
    match e {
        VerificationError::UnsupportedFormat => UpdateError::UnsupportedFormat,
        VerificationError::ChecksumMismatch => UpdateError::ChecksumMismatch,
        VerificationError::SignatureInvalid => UpdateError::SignatureInvalid,
        VerificationError::VersionMismatch => UpdateError::VersionMismatch,
    }
}

/// Where an update run stands. The states from `Downloading` on carry the
/// tag of the release being applied. Verification happens within the step
/// that receives the download, so `Stage::Verifying` only ever names the
/// stage at which a run failed.
pub enum UpdateState {
    Idle,
    Checking { installed: Option<String> },
    Downloading { tag: String },
    Unpacking { tag: String },
    Building { tag: String },
    Installing { tag: String },
    Restarting { tag: String },
    Done,
    Failed { stage: Stage, error: UpdateError },
}

/// What the caller is asked to do next.
pub enum Action {
    /// Nothing: the run is over.
    Finish,
    /// Look up the latest release tag and its asset names.
    QueryLatestRelease,
    /// Fetch the source archive of `tag` and its signature into scratch space.
    Download { tag: String },
    /// Extract the verified archive into a fresh temporary directory.
    Unpack,
    /// Rebuild from the unpacked source tree.
    Build,
    /// Copy the build into the live install path and record `version`.
    Install { version: String },
    /// Restart the running service.
    Restart,
}

/// What the caller reports back.
pub enum Event {
    /// The run begins; `lock_acquired` tells whether the run lock was taken.
    Start { lock_acquired: bool, installed_version: Option<String> },
    /// The latest release and the names of its assets.
    LatestRelease { tag: String, asset_names: Vec<String> },
    /// The downloaded artifact and its parsed signature record.
    Fetched { artifact: Vec<u8>, signature: ReleaseSignature },
    /// The archive was extracted; tells whether it held the source directory.
    Unpacked { has_source_root: bool },
    /// The build finished; tells whether it succeeded.
    Built { success: bool },
    /// The new release was installed.
    Installed,
    /// The service was restarted.
    Restarted,
    /// The requested action failed with an I/O error.
    ActionFailed,
}

/// [`UpdateState`] as plain values.
pub enum StateView {
    Idle,
    Checking { installed: Option<Seq<char>> },
    Downloading { tag: Seq<char> },
    Unpacking { tag: Seq<char> },
    Building { tag: Seq<char> },
    Installing { tag: Seq<char> },
    Restarting { tag: Seq<char> },
    Done,
    Failed { stage: Stage, error: UpdateError },
}

/// [`Action`] as plain values.
pub enum ActionView {
    Finish,
    QueryLatestRelease,
    Download { tag: Seq<char> },
    Unpack,
    Build,
    Install { version: Seq<char> },
    Restart,
}

/// [`Event`] as plain values.
pub enum EventView {
    Start { lock_acquired: bool, installed_version: Option<Seq<char>> },
    LatestRelease { tag: Seq<char>, asset_names: Seq<Seq<char>> },
    Fetched { artifact: Seq<u8>, signature: SignatureView },
    Unpacked { has_source_root: bool },
    Built { success: bool },
    Installed,
    Restarted,
    ActionFailed,
}

/// The characters of an optional string.
pub open spec fn opt_view(o: Option<String>) -> Option<Seq<char>> {
    match o {
        Some(s) => Some(s@),
        None => None,
    }
}

impl View for UpdateState {
    type V = StateView;

    open spec fn view(&self) -> StateView {
        match self {
            UpdateState::Idle => StateView::Idle,
            UpdateState::Checking { installed } => StateView::Checking {
                installed: opt_view(*installed),
            },
            UpdateState::Downloading { tag } => StateView::Downloading { tag: tag@ },
            UpdateState::Unpacking { tag } => StateView::Unpacking { tag: tag@ },
            UpdateState::Building { tag } => StateView::Building { tag: tag@ },
            UpdateState::Installing { tag } => StateView::Installing { tag: tag@ },
            UpdateState::Restarting { tag } => StateView::Restarting { tag: tag@ },
            UpdateState::Done => StateView::Done,
            UpdateState::Failed { stage, error } => StateView::Failed {
                stage: *stage,
                error: *error,
            },
        }
    }
}

impl View for Action {
    type V = ActionView;

    open spec fn view(&self) -> ActionView {
        match self {
            Action::Finish => ActionView::Finish,
            Action::QueryLatestRelease => ActionView::QueryLatestRelease,
            Action::Download { tag } => ActionView::Download { tag: tag@ },
            Action::Unpack => ActionView::Unpack,
            Action::Build => ActionView::Build,
            Action::Install { version } => ActionView::Install { version: version@ },
            Action::Restart => ActionView::Restart,
        }
    }
}

impl View for Event {
    type V = EventView;

    open spec fn view(&self) -> EventView {
        match self {
            Event::Start { lock_acquired, installed_version } => EventView::Start {
                lock_acquired: *lock_acquired,
                installed_version: opt_view(*installed_version),
            },
            Event::LatestRelease { tag, asset_names } => EventView::LatestRelease {
                tag: tag@,
                asset_names: asset_names@.map_values(|s: String| s@),
            },
            Event::Fetched { artifact, signature } => EventView::Fetched {
                artifact: artifact@,
                signature: signature@,
            },
            Event::Unpacked { has_source_root } => EventView::Unpacked {
                has_source_root: *has_source_root,
            },
            Event::Built { success } => EventView::Built { success: *success },
            Event::Installed => EventView::Installed,
            Event::Restarted => EventView::Restarted,
            Event::ActionFailed => EventView::ActionFailed,
        }
    }
}

/// Exit status of an update run: success when it is done or when another run
/// holds the lock, failure otherwise.
pub open spec fn exit_status(s: StateView) -> i32 {
    match s {
        StateView::Done => 0,
        StateView::Failed { error: UpdateError::LockHeld, .. } => 0,
        _ => 1,
    }
}

/// Stop at `stage` for `error`.
pub open spec fn fail(stage: Stage, error: UpdateError) -> (StateView, ActionView) {
    (StateView::Failed { stage, error }, ActionView::Finish)
}

/// Whether the release offers both the source archive of `tag` and its signature.
pub open spec fn offers_source(asset_names: Seq<Seq<char>>, tag: Seq<char>) -> bool {
    &&& asset_names.contains(artifact_name(SOURCE_ARCHIVE_PREFIX@, tag))
    &&& asset_names.contains(signature_name(artifact_name(SOURCE_ARCHIVE_PREFIX@, tag)))
}

/// One step of the applier: from the trusted key (if any), the current state
/// and the reported event, the next state and the action to perform.
pub open spec fn next(key: Option<Seq<u8>>, s: StateView, e: EventView) -> (StateView, ActionView) {
    match s {
        StateView::Idle => match e {
            EventView::Start { lock_acquired, installed_version } => if !lock_acquired {
                fail(Stage::Idle, UpdateError::LockHeld)
            } else {
                (StateView::Checking { installed: installed_version }, ActionView::QueryLatestRelease)
            },
            _ => fail(Stage::Idle, UpdateError::UnexpectedEvent),
        },
        StateView::Checking { installed } => match e {
            EventView::LatestRelease { tag, asset_names } => if installed == Some(tag) {
                (StateView::Done, ActionView::Finish)
            } else if !offers_source(asset_names, tag) {
                fail(Stage::Checking, UpdateError::MissingAsset)
            } else {
                (StateView::Downloading { tag }, ActionView::Download { tag })
            },
            EventView::ActionFailed => fail(Stage::Checking, UpdateError::Io),
            _ => fail(Stage::Checking, UpdateError::UnexpectedEvent),
        },
        StateView::Downloading { tag } => match e {
            EventView::Fetched { artifact, signature } => match key {
                None => fail(Stage::Verifying, UpdateError::NoTrustedKey),
                Some(k) => match verdict(artifact, signature, k, Some(tag)) {
                    Ok(_) => (StateView::Unpacking { tag }, ActionView::Unpack),
                    Err(v) => fail(Stage::Verifying, from_verification(v)),
                },
            },
            EventView::ActionFailed => fail(Stage::Downloading, UpdateError::Io),
            _ => fail(Stage::Downloading, UpdateError::UnexpectedEvent),
        },
        StateView::Unpacking { tag } => match e {
            EventView::Unpacked { has_source_root } => if has_source_root {
                (StateView::Building { tag }, ActionView::Build)
            } else {
                fail(Stage::Unpacking, UpdateError::MissingSourceRoot)
            },
            EventView::ActionFailed => fail(Stage::Unpacking, UpdateError::Io),
            _ => fail(Stage::Unpacking, UpdateError::UnexpectedEvent),
        },
        StateView::Building { tag } => match e {
            EventView::Built { success } => if success {
                (StateView::Installing { tag }, ActionView::Install { version: tag })
            } else {
                fail(Stage::Building, UpdateError::BuildFailure)
            },
            EventView::ActionFailed => fail(Stage::Building, UpdateError::BuildFailure),
            _ => fail(Stage::Building, UpdateError::UnexpectedEvent),
        },
        StateView::Installing { tag } => match e {
            EventView::Installed => (StateView::Restarting { tag }, ActionView::Restart),
            EventView::ActionFailed => fail(Stage::Installing, UpdateError::Io),
            _ => fail(Stage::Installing, UpdateError::UnexpectedEvent),
        },
        StateView::Restarting { tag } => match e {
            EventView::Restarted => (StateView::Done, ActionView::Finish),
            EventView::ActionFailed => fail(Stage::Restarting, UpdateError::Io),
            _ => fail(Stage::Restarting, UpdateError::UnexpectedEvent),
        },
        StateView::Done => (StateView::Done, ActionView::Finish),
        StateView::Failed { stage, error } => (StateView::Failed { stage, error }, ActionView::Finish),
    }
}

/// The raw bytes of the trusted key, if the host has one.
pub open spec fn key_view(k: Option<TrustedPublicKey>) -> Option<Seq<u8>> {
    match k {
        Some(t) => Some(t.public_key@),
        None => None,
    }
}

/// Whether `name` is one of `names`.
pub fn contains_name(names: &Vec<String>, name: &str) -> (r: bool)
    ensures
        r == names@.map_values(|s: String| s@).contains(name@),
{
    let ghost views = names@.map_values(|s: String| s@);
    let mut i: usize = 0;
    while i < names.len()
        invariant
            i <= names@.len(),
            views == names@.map_values(|s: String| s@),
            forall|j: int| 0 <= j < i ==> views[j] != name@,
        decreases names@.len() - i,
    {
        if same_text(names[i].as_str(), name) {
            assert(views[i as int] == name@);
            return true;
        }
        i = i + 1;
    }
    assert(!views.contains(name@));
    false
}

/// One update run on a host, holding the key it trusts.
pub struct Applier {
    pub trusted_key: Option<TrustedPublicKey>,
    pub state: UpdateState,
}

impl Applier {
    /// A run that has not started yet.
    pub fn new(trusted_key: Option<TrustedPublicKey>) -> (r: Applier)
        ensures
            r.state@ == StateView::Idle,
            r.trusted_key == trusted_key,
    {
        Applier { trusted_key, state: UpdateState::Idle }
    }

    /// A run that applies an archive already on disk as release `tag`: it
    /// starts where a download has just been asked for.
    pub fn offline(trusted_key: Option<TrustedPublicKey>, tag: String) -> (r: Applier)
        ensures
            r.state@ == (StateView::Downloading { tag: tag@ }),
            r.trusted_key == trusted_key,
    {
        Applier { trusted_key, state: UpdateState::Downloading { tag } }
    }

    /// Whether the run is over, done or failed.
    pub fn is_finished(&self) -> (r: bool)
        ensures
            r == (self.state@ is Done || self.state@ is Failed),
    {
        match self.state {
            UpdateState::Done | UpdateState::Failed { .. } => true,
            _ => false,
        }
    }

    /// The process exit status for the run as it stands.
    pub fn exit_code(&self) -> (r: i32)
        ensures
            r == exit_status(self.state@),
    {
        match self.state {
            UpdateState::Done => 0,
            UpdateState::Failed { error: UpdateError::LockHeld, .. } => 0,
            _ => 1,
        }
    }

    fn failed(&mut self, stage: Stage, error: UpdateError) -> (a: Action)
        ensures
            final(self).trusted_key == old(self).trusted_key,
            (final(self).state@, a@) == fail(stage, error),
    {
        self.state = UpdateState::Failed { stage, error };
        Action::Finish
    }

    /// Feeds the outcome of the last action to the run and returns the next
    /// action to perform.
    pub fn step(&mut self, event: Event) -> (a: Action)
        ensures
            final(self).trusted_key == old(self).trusted_key,
            (final(self).state@, a@) == next(key_view(old(self).trusted_key), old(self).state@, event@),
    {
        match &self.state {
            UpdateState::Idle => match event {
                Event::Start { lock_acquired, installed_version } => {
                    if !lock_acquired {
                        self.failed(Stage::Idle, UpdateError::LockHeld)
                    } else {
                        self.state = UpdateState::Checking { installed: installed_version };
                        Action::QueryLatestRelease
                    }
                },
                _ => self.failed(Stage::Idle, UpdateError::UnexpectedEvent),
            },
            UpdateState::Checking { installed } => match event {
                Event::LatestRelease { tag, asset_names } => {
                    let same = match installed {
                        Some(v) => same_text(v.as_str(), tag.as_str()),
                        None => false,
                    };
                    if same {
                        self.state = UpdateState::Done;
                        Action::Finish
                    } else {
                        let artifact = source_archive_name(tag.as_str());
                        let signature = signature_path_for(artifact.as_str());
                        if !contains_name(&asset_names, artifact.as_str()) || !contains_name(
                            &asset_names,
                            signature.as_str(),
                        ) {
                            self.failed(Stage::Checking, UpdateError::MissingAsset)
                        } else {
                            self.state = UpdateState::Downloading { tag: tag.clone() };
                            Action::Download { tag }
                        }
                    }
                },
                Event::ActionFailed => self.failed(Stage::Checking, UpdateError::Io),
                _ => self.failed(Stage::Checking, UpdateError::UnexpectedEvent),
            },
            UpdateState::Downloading { tag } => match event {
                Event::Fetched { artifact, signature } => {
                    let outcome = match &self.trusted_key {
                        None => Err(UpdateError::NoTrustedKey),
                        Some(k) => match verify_release(
                            artifact.as_slice(),
                            &signature,
                            k,
                            Some(tag.as_str()),
                        ) {
                            Ok(_) => Ok(()),
                            Err(v) => Err(update_error_of(v)),
                        },
                    };
                    match outcome {
                        Ok(()) => {
                            self.state = UpdateState::Unpacking { tag: tag.clone() };
                            Action::Unpack
                        },
                        Err(e) => self.failed(Stage::Verifying, e),
                    }
                },
                Event::ActionFailed => self.failed(Stage::Downloading, UpdateError::Io),
                _ => self.failed(Stage::Downloading, UpdateError::UnexpectedEvent),
            },
            UpdateState::Unpacking { tag } => match event {
                Event::Unpacked { has_source_root } => {
                    if has_source_root {
                        self.state = UpdateState::Building { tag: tag.clone() };
                        Action::Build
                    } else {
                        self.failed(Stage::Unpacking, UpdateError::MissingSourceRoot)
                    }
                },
                Event::ActionFailed => self.failed(Stage::Unpacking, UpdateError::Io),
                _ => self.failed(Stage::Unpacking, UpdateError::UnexpectedEvent),
            },
            UpdateState::Building { tag } => match event {
                Event::Built { success } => {
                    if success {
                        let version = tag.clone();
                        self.state = UpdateState::Installing { tag: tag.clone() };
                        Action::Install { version }
                    } else {
                        self.failed(Stage::Building, UpdateError::BuildFailure)
                    }
                },
                Event::ActionFailed => self.failed(Stage::Building, UpdateError::BuildFailure),
                _ => self.failed(Stage::Building, UpdateError::UnexpectedEvent),
            },
            UpdateState::Installing { tag } => match event {
                Event::Installed => {
                    self.state = UpdateState::Restarting { tag: tag.clone() };
                    Action::Restart
                },
                Event::ActionFailed => self.failed(Stage::Installing, UpdateError::Io),
                _ => self.failed(Stage::Installing, UpdateError::UnexpectedEvent),
            },
            UpdateState::Restarting { .. } => match event {
                Event::Restarted => {
                    self.state = UpdateState::Done;
                    Action::Finish
                },
                Event::ActionFailed => self.failed(Stage::Restarting, UpdateError::Io),
                _ => self.failed(Stage::Restarting, UpdateError::UnexpectedEvent),
            },
            UpdateState::Done => Action::Finish,
            UpdateState::Failed { .. } => Action::Finish,
        }
    }
}

/// The state after the first `n` of `events`, starting from `start`.
pub open spec fn state_after(key: Option<Seq<u8>>, start: StateView, events: Seq<EventView>, n: nat) -> StateView
    decreases n,
{
    if n == 0 {
        start
    } else {
        next(key, state_after(key, start, events, (n - 1) as nat), events[n - 1]).0
    }
}

/// The action requested in answer to `events[i]` in a run from `Idle`.
pub open spec fn action_at(key: Option<Seq<u8>>, events: Seq<EventView>, i: nat) -> ActionView {
    next(key, state_after(key, StateView::Idle, events, i), events[i as int]).1
}

/// Whether `events[j]` handed over an artifact that verifies under `key` as release `tag`.
pub open spec fn verified_at(key: Option<Seq<u8>>, events: Seq<EventView>, j: int, tag: Seq<char>) -> bool {
    match (key, events[j]) {
        (Some(k), EventView::Fetched { artifact, signature }) => verdict(artifact, signature, k, Some(tag)) is Ok,
        _ => false,
    }
}

/// When the installed version equals the latest tag, the run ends at once:
/// nothing is fetched and nothing on disk is touched.
pub proof fn lemma_up_to_date_is_noop(
    key: Option<Seq<u8>>,
    installed: Seq<char>,
    tag: Seq<char>,
    asset_names: Seq<Seq<char>>,
)
    requires
        installed == tag,
    ensures
        next(
            key,
            StateView::Checking { installed: Some(installed) },
            EventView::LatestRelease { tag, asset_names },
        ) == (StateView::Done, ActionView::Finish),
{
}

/// A downloaded artifact that fails verification ends the run at the
/// verification step with the verifier's reason; nothing is unpacked,
/// installed or restarted.
pub proof fn lemma_unverified_is_never_unpacked(
    key: Seq<u8>,
    tag: Seq<char>,
    artifact: Seq<u8>,
    signature: SignatureView,
)
    requires
        verdict(artifact, signature, key, Some(tag)) is Err,
    ensures
        next(
            Some(key),
            StateView::Downloading { tag },
            EventView::Fetched { artifact, signature },
        ) == fail(Stage::Verifying, from_verification(verdict(artifact, signature, key, Some(tag))->Err_0)),
{
}

/// A truncated artifact presented with the record of the full artifact
/// fails as a checksum mismatch, and the run stops before unpacking,
/// whenever the truncation changes the digest.
pub proof fn lemma_truncated_artifact_fails_closed(
    key: Seq<u8>,
    tag: Seq<char>,
    artifact: Seq<u8>,
    len: int,
    signature: SignatureView,
)
    requires
        0 <= len < artifact.len(),
        signature.format == crate::signing::RELEASE_SIG_VERSION,
        signature.digest == crate::signing::digest_of(artifact),
        crate::signing::digest_of(artifact.take(len)) != crate::signing::digest_of(artifact),
    ensures
        next(
            Some(key),
            StateView::Downloading { tag },
            EventView::Fetched { artifact: artifact.take(len), signature },
        ) == fail(Stage::Verifying, UpdateError::ChecksumMismatch),
{
}

/// What a run from `Idle` has done before reaching its `n`-th state: the
/// release being unpacked or built was verified, and the release being
/// installed or restarted into was asked to be installed.
pub open spec fn run_invariant(key: Option<Seq<u8>>, events: Seq<EventView>, n: nat) -> bool {
    match state_after(key, StateView::Idle, events, n) {
        StateView::Unpacking { tag } => exists|j: int| 0 <= j < n && #[trigger] verified_at(key, events, j, tag),
        StateView::Building { tag } => exists|j: int| 0 <= j < n && #[trigger] verified_at(key, events, j, tag),
        StateView::Installing { tag } => exists|j: int|
            0 <= j < n && #[trigger] action_at(key, events, j as nat) == ActionView::Install { version: tag },
        StateView::Restarting { tag } => exists|j: int|
            0 <= j < n && #[trigger] action_at(key, events, j as nat) == ActionView::Install { version: tag },
        _ => true,
    }
}

proof fn lemma_run_invariant(key: Option<Seq<u8>>, events: Seq<EventView>, n: nat)
    requires
        n <= events.len(),
    ensures
        run_invariant(key, events, n),
    decreases n,
{
    if n > 0 {
        let m = (n - 1) as nat;
        lemma_run_invariant(key, events, m);
        let prev = state_after(key, StateView::Idle, events, m);
        let cur = state_after(key, StateView::Idle, events, n);
        assert(cur == next(key, prev, events[m as int]).0);
        match prev {
            StateView::Downloading { tag } => {
                if cur is Unpacking {
                    assert(verified_at(key, events, m as int, tag));
                    assert(exists|j: int| 0 <= j < n && #[trigger] verified_at(key, events, j, tag));
                    assert(state_after(key, StateView::Idle, events, n) is Unpacking);
                    assert(state_after(key, StateView::Idle, events, n)->Unpacking_tag == tag);
                    assert(run_invariant(key, events, n));
                }
            },
            StateView::Unpacking { tag } => {
                if cur is Building {
                    let j = choose|j: int| 0 <= j < m && #[trigger] verified_at(key, events, j, tag);
                    assert(verified_at(key, events, j, tag));
                    assert(exists|j: int| 0 <= j < n && #[trigger] verified_at(key, events, j, tag));
                    assert(state_after(key, StateView::Idle, events, n) is Building);
                    assert(state_after(key, StateView::Idle, events, n)->Building_tag == tag);
                    assert(run_invariant(key, events, n));
                }
            },
            StateView::Building { tag } => {
                if cur is Installing {
                    assert(action_at(key, events, m) == ActionView::Install { version: tag });
                    assert(run_invariant(key, events, n));
                }
            },
            StateView::Installing { tag } => {
                if cur is Restarting {
                    let j = choose|j: int|
                        0 <= j < m && #[trigger] action_at(key, events, j as nat) == ActionView::Install {
                            version: tag,
                        };
                    assert(action_at(key, events, j as nat) == ActionView::Install { version: tag });
                    assert(run_invariant(key, events, n));
                }
            },
            _ => {},
        }
    }
}

/// Verification strictly precedes installation: whenever a run from `Idle`
/// asks to install a release, an earlier event handed over an artifact that
/// verified under the host's key as that very release.
pub proof fn lemma_install_follows_verification(
    key: Option<Seq<u8>>,
    events: Seq<EventView>,
    i: nat,
    version: Seq<char>,
)
    requires
        i < events.len(),
        action_at(key, events, i) == (ActionView::Install { version }),
    ensures
        (exists|j: int| 0 <= j < i && verified_at(key, events, j, version)),
{
    lemma_run_invariant(key, events, i);
}

/// Installation strictly precedes service disruption: whenever a run from
/// `Idle` asks to restart the service, it asked to install earlier.
pub proof fn lemma_restart_follows_install(key: Option<Seq<u8>>, events: Seq<EventView>, i: nat)
    requires
        i < events.len(),
        action_at(key, events, i) == ActionView::Restart,
    ensures
        (exists|j: int| 0 <= j < i && #[trigger] action_at(key, events, j as nat) is Install),
{
    lemma_run_invariant(key, events, i);
    if let StateView::Installing { tag } = state_after(key, StateView::Idle, events, i) {
        let j = choose|j: int|
            0 <= j < i && #[trigger] action_at(key, events, j as nat) == ActionView::Install { version: tag };
        assert(action_at(key, events, j as nat) is Install);
    }
}

} // verus!
