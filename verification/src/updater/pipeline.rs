//! The update pipeline as a state machine.
//!
//! The caller performs what an `Action` asks for (a request, a download, the
//! installation, a prompt) and hands back what came of it as an `Event`. Which
//! stage follows, and what is to be done next, is decided here:
//!
//! * a failed check, or none that announces an update, ends the attempt
//!   quietly;
//! * until the binary has been verified, whatever stands in the way of
//!   verifying it leads to the manual fallback: the user is told of the new
//!   version and offered the release page, and the attempt ends as declined;
//! * a binary that cannot be downloaded, installed or restarted ends the
//!   attempt with an error, and so does a workspace that cannot be made.

use vstd::prelude::*;
use vstd::string::StringExecFns;
use crate::text::{lowercase, to_lowercase, trim, trimmed};
use crate::updater::download::{
    checksum_matches, manifest_digest, parse_checksum_file, verify_checksum,
};
use crate::updater::version::{version_text, Version, VersionView};
use crate::updater::release::{
    get_releases_url, releases_page, text_of, ReleaseInfo, ReleaseInfoView, UpdateConfig,
    UpdateError, UpdateErrorView,
};

verus! {

/// Why an update is left to the user.
#[derive(Clone, Copy, Debug, PartialEq, Eq, Structural)]
pub enum FallbackReason {
    NoChecksumFile,
    ChecksumDownloadFailed,
    ChecksumUnreadable,
    InvalidChecksumFormat,
    ChecksumMismatch,
}

/// The file that a download is for.
#[derive(Clone, Copy, Debug, PartialEq, Eq, Structural)]
pub enum Transfer {
    Manifest,
    Binary,
}

/// How an attempt ended.
#[derive(Clone, Copy, Debug, PartialEq, Eq, Structural)]
pub enum Outcome {
    /// There is nothing to install; the program starts as usual.
    NoUpdate,
    /// The update was left to the user; the program starts as usual.
    Declined,
    /// The binary could not be downloaded, installed or restarted.
    Failed,
    /// The updated program has taken over.
    Restarted,
}

/// Where an attempt stands.
#[derive(Clone, Copy, Debug, PartialEq, Eq, Structural)]
pub enum Stage {
    Checking,
    Candidate,
    Downloading(Transfer),
    Verifying,
    Installing,
    Restarting,
    ManualFallback(FallbackReason),
    Finished(Outcome),
}

/// What the caller is to do next.
#[derive(Clone, Copy, Debug, PartialEq, Eq, Structural)]
pub enum Action {
    /// Ask the release endpoint and run the check.
    Check,
    /// Tell the user that a new version was found, then continue.
    Announce,
    /// Download the checksum manifest and read it as text.
    FetchManifest,
    /// Download the binary, reporting progress.
    FetchBinary,
    /// Read the downloaded binary.
    ReadBinary,
    /// Hand the verified binary to the installer.
    Install,
    /// Start the updated program.
    Restart,
    /// Show the new version and the reason, and ask whether to open the
    /// release page.
    Prompt,
    /// Open the page of the release.
    OpenReleasePage,
    /// Say that the address of the release page is not known.
    ReportMissingUrl,
    /// Nothing is left to do.
    Stop,
}

/// What came of the last action.
#[derive(Debug)]
pub enum Event {
    CheckFailed,
    NoRelease,
    Found(ReleaseInfo),
    Continue,
    /// No place could be made to keep the downloads in.
    WorkspaceUnavailable(String),
    ManifestFetchFailed,
    ManifestUnreadable,
    ManifestText(String),
    BinaryFetchFailed(UpdateError),
    BinaryFetched,
    BinaryUnreadable,
    BinaryBytes(Vec<u8>),
    Installed,
    InstallFailed(String),
    Restarted,
    RestartFailed(String),
    /// The line that the user typed at the prompt.
    Answer(String),
    /// The prompt could not be read.
    NoAnswer,
}

/// An `Event` over mathematical values.
pub enum EventView {
    CheckFailed,
    NoRelease,
    Found(ReleaseInfoView),
    Continue,
    WorkspaceUnavailable(Seq<char>),
    ManifestFetchFailed,
    ManifestUnreadable,
    ManifestText(Seq<char>),
    BinaryFetchFailed(UpdateErrorView),
    BinaryFetched,
    BinaryUnreadable,
    BinaryBytes(Seq<u8>),
    Installed,
    InstallFailed(Seq<char>),
    Restarted,
    RestartFailed(Seq<char>),
    Answer(Seq<char>),
    NoAnswer,
}

impl View for Event {
    type V = EventView;

    open spec fn view(&self) -> EventView {
        match self {
            Event::CheckFailed => EventView::CheckFailed,
            Event::NoRelease => EventView::NoRelease,
            Event::Found(info) => EventView::Found(info@),
            Event::Continue => EventView::Continue,
            Event::WorkspaceUnavailable(m) => EventView::WorkspaceUnavailable(m@),
            Event::ManifestFetchFailed => EventView::ManifestFetchFailed,
            Event::ManifestUnreadable => EventView::ManifestUnreadable,
            Event::ManifestText(t) => EventView::ManifestText(t@),
            Event::BinaryFetchFailed(e) => EventView::BinaryFetchFailed(e@),
            Event::BinaryFetched => EventView::BinaryFetched,
            Event::BinaryUnreadable => EventView::BinaryUnreadable,
            Event::BinaryBytes(b) => EventView::BinaryBytes(b@),
            Event::Installed => EventView::Installed,
            Event::InstallFailed(m) => EventView::InstallFailed(m@),
            Event::Restarted => EventView::Restarted,
            Event::RestartFailed(m) => EventView::RestartFailed(m@),
            Event::Answer(t) => EventView::Answer(t@),
            Event::NoAnswer => EventView::NoAnswer,
        }
    }
}

/// One attempt to update.
#[derive(Debug)]
pub struct Pipeline {
    stage: Stage,
    release: Option<ReleaseInfo>,
    expected_hash: Option<String>,
    failure: Option<UpdateError>,
}

/// A `Pipeline` over mathematical values.
pub struct PipelineView {
    pub stage: Stage,
    /// The candidate, once the check has found one.
    pub release: Option<ReleaseInfoView>,
    /// The digest that the manifest records for the binary, once it is known.
    pub expected_hash: Option<Seq<char>>,
    /// The error with which the attempt failed, if it did.
    pub failure: Option<UpdateErrorView>,
}

/// The reason as it is shown to the user.
pub open spec fn reason_text(reason: FallbackReason) -> Seq<char> {
    match reason {
        FallbackReason::NoChecksumFile => "could not verify signature (no checksum file)"@,
        FallbackReason::ChecksumDownloadFailed =>
            "could not verify signature (failed to download checksum)"@,
        FallbackReason::ChecksumUnreadable =>
            "could not verify signature (failed to read checksum)"@,
        FallbackReason::InvalidChecksumFormat =>
            "could not verify signature (invalid checksum format)"@,
        FallbackReason::ChecksumMismatch => "could not verify signature (checksum mismatch)"@,
    }
}

impl FallbackReason {
    /// The reason as it is shown to the user.
    pub fn message(&self) -> (text: &'static str)
        ensures
            text@ == reason_text(*self),
    {
        match self {
            FallbackReason::NoChecksumFile => "could not verify signature (no checksum file)",
            FallbackReason::ChecksumDownloadFailed =>
                "could not verify signature (failed to download checksum)",
            FallbackReason::ChecksumUnreadable =>
                "could not verify signature (failed to read checksum)",
            FallbackReason::InvalidChecksumFormat =>
                "could not verify signature (invalid checksum format)",
            FallbackReason::ChecksumMismatch => "could not verify signature (checksum mismatch)",
        }
    }
}

/// What the user is told before the prompt.
pub open spec fn notice_text(version: VersionView, reason: FallbackReason) -> Seq<char> {
    "New version v"@ + version_text(version) + " found, but "@ + reason_text(reason) + "."@
}

/// What the user is told before the prompt: the new version, and why it is
/// not installed.
pub fn fallback_notice(version: &Version, reason: FallbackReason) -> (notice: String)
    ensures
        notice@ == notice_text(version@, reason),
{
    String::from_str("New version v").concat(version.to_text().as_str()).concat(
        " found, but ",
    ).concat(reason.message()).concat(".")
}

/// Whether a line typed at the prompt means yes: once whitespace around it is
/// left off and it is put in lowercase, it is empty, `y` or `yes`.
pub open spec fn affirmative(answer: Seq<char>) -> bool {
    let word = lowercase(trimmed(answer));
    word == ""@ || word == "y"@ || word == "yes"@
}

/// Whether a line typed at the prompt means yes. An empty line does.
pub fn is_affirmative(answer: &str) -> (yes: bool)
    ensures
        yes == affirmative(answer@),
{
    let word = to_lowercase(trim(answer));
    word == String::from_str("") || word == String::from_str("y") || word == String::from_str("yes")
}

/// The page of the release tagged `tag`, where the configured endpoint
/// belongs to a repository whose pages are known.
pub open spec fn release_page(config: UpdateConfig, tag: Seq<char>) -> Option<Seq<char>> {
    match config.release_url {
        Some(api) => match releases_page(api@) {
            Some(base) => Some(base + "/"@ + tag),
            None => None,
        },
        None => None,
    }
}

/// The page of the release tagged `tag`.
pub fn release_page_url(config: &UpdateConfig, tag: &str) -> (url: Option<String>)
    ensures
        text_of(url) == release_page(*config, tag@),
{
    match get_releases_url(config) {
        Some(base) => Some(base.concat("/").concat(tag)),
        None => None,
    }
}

/// Whether the release names a checksum manifest to fetch.
pub open spec fn has_checksum(release: ReleaseInfoView) -> bool {
    release.checksum_url is Some && release.checksum_name is Some
}

/// What each stage waits for.
pub open spec fn pending_action(stage: Stage) -> Action {
    match stage {
        Stage::Checking => Action::Check,
        Stage::Candidate => Action::Announce,
        Stage::Downloading(Transfer::Manifest) => Action::FetchManifest,
        Stage::Downloading(Transfer::Binary) => Action::FetchBinary,
        Stage::Verifying => Action::ReadBinary,
        Stage::Installing => Action::Install,
        Stage::Restarting => Action::Restart,
        Stage::ManualFallback(_) => Action::Prompt,
        Stage::Finished(_) => Action::Stop,
    }
}

/// The pipeline `p` in another stage.
pub open spec fn at_stage(p: PipelineView, stage: Stage) -> PipelineView {
    PipelineView { stage, ..p }
}

/// What is done after the user's answer: the release page is opened on a yes,
/// where its address is known.
pub open spec fn answer_action(config: UpdateConfig, answer: Seq<char>) -> Action {
    if !affirmative(answer) {
        Action::Stop
    } else if config.release_url is Some && releases_page(config.release_url.unwrap()@) is Some {
        Action::OpenReleasePage
    } else {
        Action::ReportMissingUrl
    }
}

/// The stage that follows `p` on `event`, with what the caller is to do next.
/// An event that the stage does not wait for changes nothing and asks again
/// for what the stage waits for.
pub open spec fn step(config: UpdateConfig, p: PipelineView, event: EventView) -> (
    PipelineView,
    Action,
) {
    match (p.stage, event) {
        (Stage::Checking, EventView::CheckFailed) | (Stage::Checking, EventView::NoRelease) => (
            at_stage(p, Stage::Finished(Outcome::NoUpdate)),
            Action::Stop,
        ),
        (Stage::Checking, EventView::Found(info)) => (
            PipelineView { stage: Stage::Candidate, release: Some(info), ..p },
            Action::Announce,
        ),
        (Stage::Candidate, EventView::Continue) => {
            if p.release is Some && has_checksum(p.release.unwrap()) {
                (at_stage(p, Stage::Downloading(Transfer::Manifest)), Action::FetchManifest)
            } else {
                (
                    at_stage(p, Stage::ManualFallback(FallbackReason::NoChecksumFile)),
                    Action::Prompt,
                )
            }
        },
        (Stage::Downloading(Transfer::Manifest), EventView::WorkspaceUnavailable(why)) => (
            PipelineView {
                stage: Stage::Finished(Outcome::Failed),
                failure: Some(UpdateErrorView::Io(why)),
                ..p
            },
            Action::Stop,
        ),
        (Stage::Downloading(Transfer::Manifest), EventView::ManifestFetchFailed) => (
            at_stage(p, Stage::ManualFallback(FallbackReason::ChecksumDownloadFailed)),
            Action::Prompt,
        ),
        (Stage::Downloading(Transfer::Manifest), EventView::ManifestUnreadable) => (
            at_stage(p, Stage::ManualFallback(FallbackReason::ChecksumUnreadable)),
            Action::Prompt,
        ),
        (Stage::Downloading(Transfer::Manifest), EventView::ManifestText(text)) => {
            if p.release is Some && manifest_digest(text, p.release.unwrap().binary_name) is Some {
                (
                    PipelineView {
                        stage: Stage::Downloading(Transfer::Binary),
                        expected_hash: manifest_digest(text, p.release.unwrap().binary_name),
                        ..p
                    },
                    Action::FetchBinary,
                )
            } else {
                (
                    at_stage(p, Stage::ManualFallback(FallbackReason::InvalidChecksumFormat)),
                    Action::Prompt,
                )
            }
        },
        (Stage::Downloading(Transfer::Binary), EventView::BinaryFetchFailed(error)) => (
            PipelineView { stage: Stage::Finished(Outcome::Failed), failure: Some(error), ..p },
            Action::Stop,
        ),
        (Stage::Downloading(Transfer::Binary), EventView::BinaryFetched) => (
            at_stage(p, Stage::Verifying),
            Action::ReadBinary,
        ),
        (Stage::Verifying, EventView::BinaryBytes(data)) => {
            if p.expected_hash is Some && checksum_matches(data, p.expected_hash.unwrap()) {
                (at_stage(p, Stage::Installing), Action::Install)
            } else {
                (
                    at_stage(p, Stage::ManualFallback(FallbackReason::ChecksumMismatch)),
                    Action::Prompt,
                )
            }
        },
        (Stage::Verifying, EventView::BinaryUnreadable) => (
            at_stage(p, Stage::ManualFallback(FallbackReason::ChecksumMismatch)),
            Action::Prompt,
        ),
        (Stage::Installing, EventView::Installed) => (
            at_stage(p, Stage::Restarting),
            Action::Restart,
        ),
        (Stage::Installing, EventView::InstallFailed(why)) => (
            PipelineView {
                stage: Stage::Finished(Outcome::Failed),
                failure: Some(UpdateErrorView::Install(why)),
                ..p
            },
            Action::Stop,
        ),
        (Stage::Restarting, EventView::Restarted) => (
            at_stage(p, Stage::Finished(Outcome::Restarted)),
            Action::Stop,
        ),
        (Stage::Restarting, EventView::RestartFailed(why)) => (
            PipelineView {
                stage: Stage::Finished(Outcome::Failed),
                failure: Some(UpdateErrorView::Restart(why)),
                ..p
            },
            Action::Stop,
        ),
        (Stage::ManualFallback(_), EventView::Answer(answer)) => (
            at_stage(p, Stage::Finished(Outcome::Declined)),
            answer_action(config, answer),
        ),
        (Stage::ManualFallback(_), EventView::NoAnswer) => (
            at_stage(p, Stage::Finished(Outcome::Declined)),
            Action::Stop,
        ),
        _ => (p, pending_action(p.stage)),
    }
}

/// The pipeline after a sequence of events.
pub open spec fn run(config: UpdateConfig, p: PipelineView, events: Seq<EventView>) -> PipelineView
    decreases events.len(),
{
    if events.len() == 0 {
        p
    } else {
        run(config, step(config, p, events[0]).0, events.drop_first())
    }
}

/// What the caller is asked to do, in order, as the events come in.
pub open spec fn actions(config: UpdateConfig, p: PipelineView, events: Seq<EventView>) -> Seq<
    Action,
>
    decreases events.len(),
{
    if events.len() == 0 {
        Seq::<Action>::empty()
    } else {
        seq![step(config, p, events[0]).1] + actions(
            config,
            step(config, p, events[0]).0,
            events.drop_first(),
        )
    }
}

/// An attempt that has not started.
pub open spec fn fresh() -> PipelineView {
    PipelineView { stage: Stage::Checking, release: None, expected_hash: None, failure: None }
}

/// What the attempt comes to for the caller, once it is finished: an error
/// where it failed or was left to the user, success otherwise.
pub open spec fn result_of(p: PipelineView) -> Option<Result<(), UpdateErrorView>> {
    match p.stage {
        Stage::Finished(Outcome::NoUpdate) | Stage::Finished(Outcome::Restarted) => Some(Ok(())),
        Stage::Finished(Outcome::Declined) => Some(Err(UpdateErrorView::UserDeclined)),
        Stage::Finished(Outcome::Failed) => match p.failure {
            Some(e) => Some(Err(e)),
            None => None,
        },
        _ => None,
    }
}

impl View for Pipeline {
    type V = PipelineView;

    closed spec fn view(&self) -> PipelineView {
        PipelineView {
            stage: self.stage,
            release: match self.release {
                Some(info) => Some(info@),
                None => None,
            },
            expected_hash: text_of(self.expected_hash),
            failure: match self.failure {
                Some(e) => Some(e@),
                None => None,
            },
        }
    }
}

/// What holds of every pipeline that this module hands out: past the check
/// the candidate is known, the expected digest is known while the binary is
/// fetched and verified, and a failed attempt has its error.
pub open spec fn well_formed(p: PipelineView) -> bool {
    &&& match p.stage {
        Stage::Checking | Stage::Finished(_) => true,
        _ => p.release is Some,
    }
    &&& match p.stage {
        Stage::Downloading(Transfer::Manifest) => has_checksum(p.release.unwrap()),
        Stage::Downloading(Transfer::Binary) | Stage::Verifying => p.expected_hash is Some,
        Stage::Finished(Outcome::Failed) => p.failure is Some,
        _ => true,
    }
}

impl Pipeline {
    /// An attempt that has not started: it waits for the check.
    pub fn new() -> (p: Pipeline)
        ensures
            p@ == fresh(),
            well_formed(p@),
    {
        Pipeline { stage: Stage::Checking, release: None, expected_hash: None, failure: None }
    }

    /// Where the attempt stands.
    pub fn stage(&self) -> (stage: Stage)
        ensures
            stage == self@.stage,
    {
        self.stage
    }

    /// The candidate, once the check has found one.
    pub fn release(&self) -> (release: Option<&ReleaseInfo>)
        ensures
            match release {
                Some(info) => self@.release == Some(info@),
                None => self@.release is None,
            },
    {
        self.release.as_ref()
    }

    /// The digest that the manifest records for the binary, once it is known.
    pub fn expected_hash(&self) -> (digest: Option<&String>)
        ensures
            match digest {
                Some(d) => self@.expected_hash == Some(d@),
                None => self@.expected_hash is None,
            },
    {
        self.expected_hash.as_ref()
    }

    /// What the caller is to do in the present stage.
    pub fn pending(&self) -> (action: Action)
        ensures
            action == pending_action(self@.stage),
    {
        match self.stage {
            Stage::Checking => Action::Check,
            Stage::Candidate => Action::Announce,
            Stage::Downloading(Transfer::Manifest) => Action::FetchManifest,
            Stage::Downloading(Transfer::Binary) => Action::FetchBinary,
            Stage::Verifying => Action::ReadBinary,
            Stage::Installing => Action::Install,
            Stage::Restarting => Action::Restart,
            Stage::ManualFallback(_) => Action::Prompt,
            Stage::Finished(_) => Action::Stop,
        }
    }

    /// Takes in what came of the last action and says what to do next.
    pub fn advance(&mut self, config: &UpdateConfig, event: Event) -> (action: Action)
        ensures
            (final(self)@, action) == step(*config, old(self)@, event@),
            well_formed(old(self)@) ==> well_formed(final(self)@),
    {
        let stage = self.stage;
        match stage {
            Stage::Checking => match event {
                Event::CheckFailed | Event::NoRelease => {
                    self.stage = Stage::Finished(Outcome::NoUpdate);
                    Action::Stop
                },
                Event::Found(info) => {
                    self.release = Some(info);
                    self.stage = Stage::Candidate;
                    Action::Announce
                },
                _ => self.pending(),
            },
            Stage::Candidate => match event {
                Event::Continue => {
                    let known = match &self.release {
                        Some(info) => info.checksum_url.is_some() && info.checksum_name.is_some(),
                        None => false,
                    };
                    if known {
                        self.stage = Stage::Downloading(Transfer::Manifest);
                        Action::FetchManifest
                    } else {
                        self.stage = Stage::ManualFallback(FallbackReason::NoChecksumFile);
                        Action::Prompt
                    }
                },
                _ => self.pending(),
            },
            Stage::Downloading(Transfer::Manifest) => match event {
                Event::WorkspaceUnavailable(why) => {
                    self.failure = Some(UpdateError::Io(why));
                    self.stage = Stage::Finished(Outcome::Failed);
                    Action::Stop
                },
                Event::ManifestFetchFailed => {
                    self.stage = Stage::ManualFallback(FallbackReason::ChecksumDownloadFailed);
                    Action::Prompt
                },
                Event::ManifestUnreadable => {
                    self.stage = Stage::ManualFallback(FallbackReason::ChecksumUnreadable);
                    Action::Prompt
                },
                Event::ManifestText(text) => {
                    let digest = match &self.release {
                        Some(info) => parse_checksum_file(text.as_str(), info.binary_name.as_str()),
                        None => None,
                    };
                    match digest {
                        Some(d) => {
                            self.expected_hash = Some(d);
                            self.stage = Stage::Downloading(Transfer::Binary);
                            Action::FetchBinary
                        },
                        None => {
                            self.stage = Stage::ManualFallback(
                                FallbackReason::InvalidChecksumFormat,
                            );
                            Action::Prompt
                        },
                    }
                },
                _ => self.pending(),
            },
            Stage::Downloading(Transfer::Binary) => match event {
                Event::BinaryFetchFailed(error) => {
                    self.failure = Some(error);
                    self.stage = Stage::Finished(Outcome::Failed);
                    Action::Stop
                },
                Event::BinaryFetched => {
                    self.stage = Stage::Verifying;
                    Action::ReadBinary
                },
                _ => self.pending(),
            },
            Stage::Verifying => match event {
                Event::BinaryBytes(data) => {
                    let verified = match &self.expected_hash {
                        Some(expected) => verify_checksum(data.as_slice(), expected.as_str()),
                        None => false,
                    };
                    if verified {
                        self.stage = Stage::Installing;
                        Action::Install
                    } else {
                        self.stage = Stage::ManualFallback(FallbackReason::ChecksumMismatch);
                        Action::Prompt
                    }
                },
                Event::BinaryUnreadable => {
                    self.stage = Stage::ManualFallback(FallbackReason::ChecksumMismatch);
                    Action::Prompt
                },
                _ => self.pending(),
            },
            Stage::Installing => match event {
                Event::Installed => {
                    self.stage = Stage::Restarting;
                    Action::Restart
                },
                Event::InstallFailed(why) => {
                    self.failure = Some(UpdateError::Install(why));
                    self.stage = Stage::Finished(Outcome::Failed);
                    Action::Stop
                },
                _ => self.pending(),
            },
            Stage::Restarting => match event {
                Event::Restarted => {
                    self.stage = Stage::Finished(Outcome::Restarted);
                    Action::Stop
                },
                Event::RestartFailed(why) => {
                    self.failure = Some(UpdateError::Restart(why));
                    self.stage = Stage::Finished(Outcome::Failed);
                    Action::Stop
                },
                _ => self.pending(),
            },
            Stage::ManualFallback(_) => match event {
                Event::Answer(answer) => {
                    self.stage = Stage::Finished(Outcome::Declined);
                    if !is_affirmative(answer.as_str()) {
                        Action::Stop
                    } else if get_releases_url(config).is_some() {
                        Action::OpenReleasePage
                    } else {
                        Action::ReportMissingUrl
                    }
                },
                Event::NoAnswer => {
                    self.stage = Stage::Finished(Outcome::Declined);
                    Action::Stop
                },
                _ => self.pending(),
            },
            Stage::Finished(_) => self.pending(),
        }
    }

    /// Ends the attempt and hands out its result; nothing while the attempt
    /// is not finished.
    pub fn into_result(self) -> (r: Option<Result<(), UpdateError>>)
        ensures
            match r {
                Some(Ok(_)) => result_of(self@) == Some(Ok::<(), UpdateErrorView>(())),
                Some(Err(e)) => result_of(self@) == Some(Err::<(), UpdateErrorView>(e@)),
                None => result_of(self@) is None,
            },
    {
        match self.stage {
            Stage::Finished(Outcome::NoUpdate) => Some(Ok(())),
            Stage::Finished(Outcome::Restarted) => Some(Ok(())),
            Stage::Finished(Outcome::Declined) => Some(Err(UpdateError::UserDeclined)),
            Stage::Finished(Outcome::Failed) => match self.failure {
                Some(e) => Some(Err(e)),
                None => None,
            },
            _ => None,
        }
    }
}

/// The stages that a candidate without a checksum asset can be in.
pub open spec fn left_to_user(p: PipelineView) -> bool {
    ||| p.stage == Stage::Candidate && (p.release is None || !has_checksum(p.release.unwrap()))
    ||| p.stage == Stage::ManualFallback(FallbackReason::NoChecksumFile)
    ||| p.stage == Stage::Finished(Outcome::Declined)
}

/// Whatever happens to a pipeline that is left to the user, it stays so.
pub proof fn lemma_left_to_user_is_kept(
    config: UpdateConfig,
    p: PipelineView,
    events: Seq<EventView>,
)
    requires
        left_to_user(p),
    ensures
        left_to_user(run(config, p, events)),
    decreases events.len(),
{
    if events.len() > 0 {
        lemma_left_to_user_is_kept(config, step(config, p, events[0]).0, events.drop_first());
    }
}

/// A candidate without a checksum asset goes to the manual fallback at once,
/// without a download, and whatever events follow, it is never installed.
pub proof fn lemma_no_checksum_never_installs(
    config: UpdateConfig,
    p: PipelineView,
    events: Seq<EventView>,
)
    requires
        p.stage == Stage::Candidate,
        p.release is Some,
        !has_checksum(p.release.unwrap()),
    ensures
        step(config, p, EventView::Continue) == (
            at_stage(p, Stage::ManualFallback(FallbackReason::NoChecksumFile)),
            Action::Prompt,
        ),
        !(run(config, p, events).stage is Downloading),
        run(config, p, events).stage != Stage::Verifying,
        run(config, p, events).stage != Stage::Installing,
        run(config, p, events).stage != Stage::Restarting,
{
    lemma_left_to_user_is_kept(config, p, events);
}

/// The installer is asked only for a binary whose digest is the one that the
/// manifest records: the pipeline enters `Installing` from `Verifying` alone,
/// on the bytes of a binary that match the expected digest.
pub proof fn lemma_install_only_after_verification(
    config: UpdateConfig,
    p: PipelineView,
    event: EventView,
)
    requires
        p.stage != Stage::Installing,
        step(config, p, event).0.stage == Stage::Installing,
    ensures
        p.stage == Stage::Verifying,
        event is BinaryBytes,
        p.expected_hash is Some,
        checksum_matches(event->BinaryBytes_0, p.expected_hash.unwrap()),
        step(config, p, event).1 == Action::Install,
{
}

/// The events of an update that goes well: a candidate with a checksum
/// asset, a manifest that records a digest for the binary, and a binary
/// whose digest it is.
pub open spec fn smooth_events(
    release: ReleaseInfoView,
    manifest: Seq<char>,
    data: Seq<u8>,
) -> Seq<EventView> {
    seq![
        EventView::Found(release),
        EventView::Continue,
        EventView::ManifestText(manifest),
        EventView::BinaryFetched,
        EventView::BinaryBytes(data),
        EventView::Installed,
        EventView::Restarted,
    ]
}

/// An update that goes well fetches the manifest and then the binary,
/// verifies it, and asks for the installer and then for the restart, once
/// each; the user is never prompted, and the attempt ends in success.
pub proof fn lemma_verified_update_is_installed_once(
    config: UpdateConfig,
    release: ReleaseInfoView,
    manifest: Seq<char>,
    data: Seq<u8>,
)
    requires
        has_checksum(release),
        manifest_digest(manifest, release.binary_name) is Some,
        checksum_matches(data, manifest_digest(manifest, release.binary_name).unwrap()),
    ensures
        actions(config, fresh(), smooth_events(release, manifest, data)) == seq![
            Action::Announce,
            Action::FetchManifest,
            Action::FetchBinary,
            Action::ReadBinary,
            Action::Install,
            Action::Restart,
            Action::Stop,
        ],
        run(config, fresh(), smooth_events(release, manifest, data)).stage == Stage::Finished(
            Outcome::Restarted,
        ),
        result_of(run(config, fresh(), smooth_events(release, manifest, data))) == Some(
            Ok::<(), UpdateErrorView>(()),
        ),
{
    let e0 = smooth_events(release, manifest, data);
    let p0 = fresh();
    let p1 = step(config, p0, e0[0]).0;
    let e1 = e0.drop_first();
    let p2 = step(config, p1, e1[0]).0;
    let e2 = e1.drop_first();
    let p3 = step(config, p2, e2[0]).0;
    let e3 = e2.drop_first();
    let p4 = step(config, p3, e3[0]).0;
    let e4 = e3.drop_first();
    let p5 = step(config, p4, e4[0]).0;
    let e5 = e4.drop_first();
    let p6 = step(config, p5, e5[0]).0;
    let e6 = e5.drop_first();
    let p7 = step(config, p6, e6[0]).0;
    let e7 = e6.drop_first();
    assert(run(config, p7, e7) == p7);
    assert(run(config, p6, e6) == p7);
    assert(run(config, p5, e5) == p7);
    assert(run(config, p4, e4) == p7);
    assert(run(config, p3, e3) == p7);
    assert(run(config, p2, e2) == p7);
    assert(run(config, p1, e1) == p7);
    assert(actions(config, p7, e7) =~= Seq::<Action>::empty());
    assert(actions(config, p6, e6) =~= seq![Action::Stop]);
    assert(actions(config, p5, e5) =~= seq![Action::Restart, Action::Stop]);
    assert(actions(config, p4, e4) =~= seq![Action::Install, Action::Restart, Action::Stop]);
    assert(actions(config, p3, e3) =~= seq![
        Action::ReadBinary,
        Action::Install,
        Action::Restart,
        Action::Stop,
    ]);
    assert(actions(config, p2, e2) =~= seq![
        Action::FetchBinary,
        Action::ReadBinary,
        Action::Install,
        Action::Restart,
        Action::Stop,
    ]);
    assert(actions(config, p1, e1) =~= seq![
        Action::FetchManifest,
        Action::FetchBinary,
        Action::ReadBinary,
        Action::Install,
        Action::Restart,
        Action::Stop,
    ]);
}

/// The manual fallback ends in one way: whatever the user answers, and
/// whether an answer can be read at all, the attempt ends as declined.
pub proof fn lemma_fallback_always_declines(config: UpdateConfig, p: PipelineView, event: EventView)
    requires
        p.stage is ManualFallback,
        event is Answer || event is NoAnswer,
    ensures
        step(config, p, event).0.stage == Stage::Finished(Outcome::Declined),
        result_of(step(config, p, event).0) == Some(
            Err::<(), UpdateErrorView>(UpdateErrorView::UserDeclined),
        ),
{
}

/// No event leads a well-formed pipeline to one that is not.
pub proof fn lemma_step_keeps_well_formed(config: UpdateConfig, p: PipelineView, event: EventView)
    requires
        well_formed(p),
    ensures
        well_formed(step(config, p, event).0),
{
}

/// An attempt that is finished stays as it is and asks for nothing more.
pub proof fn lemma_finished_is_final(config: UpdateConfig, p: PipelineView, event: EventView)
    requires
        p.stage is Finished,
    ensures
        step(config, p, event) == (p, Action::Stop),
{
}

} // verus!
