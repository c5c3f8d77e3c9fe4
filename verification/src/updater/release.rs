//! Release metadata: what the remote endpoint publishes, and the decision
//! whether it is an update for the running program.

use vstd::prelude::*;
use vstd::string::StringExecFns;
use crate::text::{chars_of, ends_with, has_prefix, has_suffix, range_equals, starts_with};
use crate::updater::version::{
    precedes, semver_error_text, semver_parse, semver_parse_text, Version, VersionView,
};

verus! {

/// Why an update attempt failed.
#[derive(Debug)]
pub enum UpdateError {
    /// The release endpoint or a download could not be reached or answered
    /// with a failure.
    Network(String),
    /// A version string is no semantic version.
    VersionParse(String),
    /// A file could not be read or written.
    Io(String),
    /// The release has no binary for the running platform.
    UnsupportedPlatform,
    /// The verified binary could not be put in place.
    Install(String),
    /// The updated program could not be started.
    Restart(String),
    /// The attempt ended without an update and the program goes on as it is.
    UserDeclined,
}

/// An `UpdateError` over mathematical values.
pub enum UpdateErrorView {
    Network(Seq<char>),
    VersionParse(Seq<char>),
    Io(Seq<char>),
    UnsupportedPlatform,
    Install(Seq<char>),
    Restart(Seq<char>),
    UserDeclined,
}

impl View for UpdateError {
    type V = UpdateErrorView;

    open spec fn view(&self) -> UpdateErrorView {
        match self {
            UpdateError::Network(m) => UpdateErrorView::Network(m@),
            UpdateError::VersionParse(m) => UpdateErrorView::VersionParse(m@),
            UpdateError::Io(m) => UpdateErrorView::Io(m@),
            UpdateError::UnsupportedPlatform => UpdateErrorView::UnsupportedPlatform,
            UpdateError::Install(m) => UpdateErrorView::Install(m@),
            UpdateError::Restart(m) => UpdateErrorView::Restart(m@),
            UpdateError::UserDeclined => UpdateErrorView::UserDeclined,
        }
    }
}

/// The text shown for an error.
pub open spec fn error_message(e: UpdateErrorView) -> Seq<char> {
    match e {
        UpdateErrorView::Network(m) => "Network error: "@ + m,
        UpdateErrorView::VersionParse(m) => "Failed to parse version: "@ + m,
        UpdateErrorView::Io(m) => "IO error: "@ + m,
        UpdateErrorView::UnsupportedPlatform => "No binary available for this platform"@,
        UpdateErrorView::Install(m) => "Failed to install: "@ + m,
        UpdateErrorView::Restart(m) => "Failed to restart: "@ + m,
        UpdateErrorView::UserDeclined => "User declined update"@,
    }
}

impl UpdateError {
    /// The text shown for this error.
    pub fn message(&self) -> (text: String)
        ensures
            text@ == error_message(self@),
    {
        match self {
            UpdateError::Network(m) => String::from_str("Network error: ").concat(m.as_str()),
            UpdateError::VersionParse(m) => String::from_str("Failed to parse version: ").concat(
                m.as_str(),
            ),
            UpdateError::Io(m) => String::from_str("IO error: ").concat(m.as_str()),
            UpdateError::UnsupportedPlatform => String::from_str(
                "No binary available for this platform",
            ),
            UpdateError::Install(m) => String::from_str("Failed to install: ").concat(m.as_str()),
            UpdateError::Restart(m) => String::from_str("Failed to restart: ").concat(m.as_str()),
            UpdateError::UserDeclined => String::from_str("User declined update"),
        }
    }
}

/// A release as the remote endpoint describes it.
#[derive(Debug)]
pub struct GitHubRelease {
    pub tag_name: String,
    pub draft: bool,
    pub assets: Vec<GitHubAsset>,
}

/// One downloadable file of a release.
#[derive(Debug)]
pub struct GitHubAsset {
    pub name: String,
    pub browser_download_url: String,
    pub size: u64,
}

/// A release that is an update for the running program, with the files to
/// fetch for it.
#[derive(Debug)]
pub struct ReleaseInfo {
    pub version: Version,
    pub tag_name: String,
    pub binary_url: String,
    pub binary_name: String,
    pub checksum_url: Option<String>,
    pub checksum_name: Option<String>,
    pub size: u64,
}

/// A `ReleaseInfo` over mathematical values.
pub struct ReleaseInfoView {
    pub version: VersionView,
    pub tag_name: Seq<char>,
    pub binary_url: Seq<char>,
    pub binary_name: Seq<char>,
    pub checksum_url: Option<Seq<char>>,
    pub checksum_name: Option<Seq<char>>,
    pub size: u64,
}

/// The characters of an optional string.
pub open spec fn text_of(s: Option<String>) -> Option<Seq<char>> {
    match s {
        Some(t) => Some(t@),
        None => None,
    }
}

impl View for ReleaseInfo {
    type V = ReleaseInfoView;

    open spec fn view(&self) -> ReleaseInfoView {
        ReleaseInfoView {
            version: self.version@,
            tag_name: self.tag_name@,
            binary_url: self.binary_url@,
            binary_name: self.binary_name@,
            checksum_url: text_of(self.checksum_url),
            checksum_name: text_of(self.checksum_name),
            size: self.size,
        }
    }
}

/// The platforms for which releases may carry a binary.
#[derive(Clone, Copy, Debug, PartialEq, Eq, Structural)]
pub enum Target {
    Windows,
    Linux,
    MacAarch64,
    MacX86_64,
    /// Any platform for which no binary is published.
    Other,
}

/// The ending of the name of the binary asset for each platform.
pub open spec fn platform_suffix_of(target: Target) -> Option<Seq<char>> {
    match target {
        Target::Windows => Some("windows-x86_64.exe"@),
        Target::Linux => Some("linux-x86_64"@),
        Target::MacAarch64 => Some("mac-aarch64"@),
        Target::MacX86_64 => Some("mac-x86_64"@),
        Target::Other => None,
    }
}

/// The ending of the name of the binary asset for `target`, if one is
/// published for it.
pub fn platform_suffix(target: Target) -> (suffix: Option<&'static str>)
    ensures
        match suffix {
            Some(s) => platform_suffix_of(target) == Some(s@),
            None => platform_suffix_of(target) is None,
        },
{
    match target {
        Target::Windows => Some("windows-x86_64.exe"),
        Target::Linux => Some("linux-x86_64"),
        Target::MacAarch64 => Some("mac-aarch64"),
        Target::MacX86_64 => Some("mac-x86_64"),
        Target::Other => None,
    }
}

/// Index of the first asset at or after `from` whose name ends with `suffix`.
pub open spec fn first_with_suffix(
    assets: Seq<GitHubAsset>,
    suffix: Seq<char>,
    from: int,
) -> Option<int>
    decreases assets.len() - from,
{
    if from < 0 || from >= assets.len() {
        None
    } else if has_suffix(assets[from].name@, suffix) {
        Some(from)
    } else {
        first_with_suffix(assets, suffix, from + 1)
    }
}

/// Index of the first asset at or after `from` whose name is `name`.
pub open spec fn first_named(assets: Seq<GitHubAsset>, name: Seq<char>, from: int) -> Option<int>
    decreases assets.len() - from,
{
    if from < 0 || from >= assets.len() {
        None
    } else if assets[from].name@ == name {
        Some(from)
    } else {
        first_named(assets, name, from + 1)
    }
}

/// Index of the binary asset for `target`: the first whose name ends with the
/// platform's suffix.
pub open spec fn platform_asset_index(assets: Seq<GitHubAsset>, target: Target) -> Option<int> {
    match platform_suffix_of(target) {
        Some(suffix) => first_with_suffix(assets, suffix, 0),
        None => None,
    }
}

/// The name under which the checksum manifest of a binary is published.
pub open spec fn checksum_name_of(binary_name: Seq<char>) -> Seq<char> {
    binary_name + ".sha256"@
}

/// Index of the checksum asset for a binary: the first whose name is exactly
/// the binary's name followed by `.sha256`.
pub open spec fn checksum_asset_index(assets: Seq<GitHubAsset>, binary_name: Seq<char>) -> Option<
    int,
> {
    first_named(assets, checksum_name_of(binary_name), 0)
}

/// The binary asset of `release` for `target`.
pub fn get_platform_asset(release: &GitHubRelease, target: Target) -> (found: Option<&GitHubAsset>)
    ensures
        match found {
            Some(a) => {
                &&& platform_asset_index(release.assets@, target) is Some
                &&& 0 <= platform_asset_index(release.assets@, target).unwrap()
                    < release.assets@.len()
                &&& *a == release.assets@[platform_asset_index(release.assets@, target).unwrap()]
            },
            None => platform_asset_index(release.assets@, target) is None,
        },
{
    let suffix = match platform_suffix(target) {
        Some(s) => chars_of(s),
        None => {
            return None;
        },
    };
    let mut i: usize = 0;
    while i < release.assets.len()
        invariant
            i <= release.assets.len(),
            platform_suffix_of(target) == Some(suffix@),
            first_with_suffix(release.assets@, suffix@, 0) == first_with_suffix(
                release.assets@,
                suffix@,
                i as int,
            ),
        decreases release.assets.len() - i,
    {
        let name = chars_of(release.assets[i].name.as_str());
        if ends_with(&name, &suffix) {
            return Some(&release.assets[i]);
        }
        i += 1;
    }
    None
}

/// The checksum asset of `release` for the binary named `binary_name`.
pub fn get_checksum_asset<'a>(release: &'a GitHubRelease, binary_name: &str) -> (found: Option<
    &'a GitHubAsset,
>)
    ensures
        match found {
            Some(a) => {
                &&& checksum_asset_index(release.assets@, binary_name@) is Some
                &&& 0 <= checksum_asset_index(release.assets@, binary_name@).unwrap()
                    < release.assets@.len()
                &&& *a == release.assets@[checksum_asset_index(
                    release.assets@,
                    binary_name@,
                ).unwrap()]
            },
            None => checksum_asset_index(release.assets@, binary_name@) is None,
        },
{
    let checksum_name = String::from_str(binary_name).concat(".sha256");
    let mut i: usize = 0;
    while i < release.assets.len()
        invariant
            i <= release.assets.len(),
            checksum_name@ == checksum_name_of(binary_name@),
            first_named(release.assets@, checksum_name@, 0) == first_named(
                release.assets@,
                checksum_name@,
                i as int,
            ),
        decreases release.assets.len() - i,
    {
        if release.assets[i].name == checksum_name {
            return Some(&release.assets[i]);
        }
        i += 1;
    }
    None
}

/// What `first_with_suffix` finds from the start: an asset whose name ends
/// with the suffix and before which none does; or nothing, when no name ends
/// with it.
pub proof fn lemma_first_with_suffix(assets: Seq<GitHubAsset>, suffix: Seq<char>, from: int)
    requires
        0 <= from,
    ensures
        match first_with_suffix(assets, suffix, from) {
            Some(i) => {
                &&& from <= i < assets.len()
                &&& has_suffix(assets[i].name@, suffix)
                &&& forall|j: int| from <= j < i ==> !has_suffix(#[trigger] assets[j].name@, suffix)
            },
            None => forall|j: int|
                from <= j < assets.len() ==> !has_suffix(#[trigger] assets[j].name@, suffix),
        },
    decreases assets.len() - from,
{
    if from < assets.len() && !has_suffix(assets[from].name@, suffix) {
        lemma_first_with_suffix(assets, suffix, from + 1);
    }
}

/// What `first_named` finds from the start: an asset of that name before
/// which none has it; or nothing, when no asset has the name.
pub proof fn lemma_first_named(assets: Seq<GitHubAsset>, name: Seq<char>, from: int)
    requires
        0 <= from,
    ensures
        match first_named(assets, name, from) {
            Some(i) => {
                &&& from <= i < assets.len()
                &&& assets[i].name@ == name
                &&& forall|j: int| from <= j < i ==> #[trigger] assets[j].name@ != name
            },
            None => forall|j: int| from <= j < assets.len() ==> #[trigger] assets[j].name@ != name,
        },
    decreases assets.len() - from,
{
    if from < assets.len() && assets[from].name@ != name {
        lemma_first_named(assets, name, from + 1);
    }
}

/// The binary asset is missing exactly when no asset name ends with the
/// platform's suffix, and otherwise is the first in list order whose name
/// does.
pub proof fn lemma_platform_asset_is_first_match(assets: Seq<GitHubAsset>, target: Target)
    ensures
        match platform_asset_index(assets, target) {
            Some(i) => {
                &&& platform_suffix_of(target) is Some
                &&& 0 <= i < assets.len()
                &&& has_suffix(assets[i].name@, platform_suffix_of(target).unwrap())
                &&& forall|j: int|
                    0 <= j < i ==> !has_suffix(
                        #[trigger] assets[j].name@,
                        platform_suffix_of(target).unwrap(),
                    )
            },
            None => platform_suffix_of(target) is Some ==> forall|j: int|
                0 <= j < assets.len() ==> !has_suffix(
                    #[trigger] assets[j].name@,
                    platform_suffix_of(target).unwrap(),
                ),
        },
{
    if let Some(suffix) = platform_suffix_of(target) {
        lemma_first_with_suffix(assets, suffix, 0);
    }
}

/// `s` without one leading `v`, if it has one.
pub open spec fn strip_v(s: Seq<char>) -> Seq<char> {
    if s.len() > 0 && s[0] == 'v' {
        s.subrange(1, s.len() as int)
    } else {
        s
    }
}

/// The version that a tag or version string stands for, if it is one.
pub open spec fn version_of(text: Seq<char>) -> Option<VersionView> {
    semver_parse(strip_v(text))
}

/// Reads a version from a tag such as `v1.2.3` or a version string such as
/// `1.2.3`: one leading `v` is dropped, the rest must be a semantic version.
pub fn parse_version(version_str: &str) -> (r: Result<Version, UpdateError>)
    ensures
        match r {
            Ok(v) => version_of(version_str@) == Some(v@),
            Err(e) => version_of(version_str@) is None && e is VersionParse,
        },
{
    let n = version_str.unicode_len();
    let clean = if n > 0 && version_str.get_char(0) == 'v' {
        version_str.substring_char(1, n)
    } else {
        version_str
    };
    match semver_parse_text(clean) {
        Ok(v) => Ok(v),
        Err(e) => Err(UpdateError::VersionParse(semver_error_text(&e))),
    }
}

/// What a check of one release comes to.
pub enum CheckVerdict {
    /// The release is a draft or not newer than the running version.
    NoUpdate,
    /// The release is newer and has a binary for the platform.
    Candidate(ReleaseInfoView),
    /// The tag of the release or the running version is no semantic version.
    BadVersion,
    /// The release is newer but has no binary for the platform.
    UnsupportedPlatform,
}

/// The candidate made of `release`, its version `remote` and its binary asset
/// at index `i`, with the checksum asset that belongs to the binary, if the
/// release has one.
pub open spec fn candidate_of(
    release: GitHubRelease,
    remote: VersionView,
    i: int,
) -> ReleaseInfoView {
    let asset = release.assets@[i];
    let checksum = checksum_asset_index(release.assets@, asset.name@);
    ReleaseInfoView {
        version: remote,
        tag_name: release.tag_name@,
        binary_url: asset.browser_download_url@,
        binary_name: asset.name@,
        checksum_url: match checksum {
            Some(k) => Some(release.assets@[k].browser_download_url@),
            None => None,
        },
        checksum_name: match checksum {
            Some(k) => Some(release.assets@[k].name@),
            None => None,
        },
        size: asset.size,
    }
}

/// The verdict on `release` for a program of version `current` on `target`.
/// A draft is never an update, whatever its tag. Otherwise both versions must
/// parse, the release must be strictly newer, and it must have a binary for
/// the platform.
pub open spec fn release_verdict(
    release: GitHubRelease,
    current: Seq<char>,
    target: Target,
) -> CheckVerdict {
    if release.draft {
        CheckVerdict::NoUpdate
    } else {
        match (version_of(release.tag_name@), version_of(current)) {
            (Some(remote), Some(running)) => {
                if !precedes(running, remote) {
                    CheckVerdict::NoUpdate
                } else {
                    match platform_asset_index(release.assets@, target) {
                        Some(i) => CheckVerdict::Candidate(candidate_of(release, remote, i)),
                        None => CheckVerdict::UnsupportedPlatform,
                    }
                }
            },
            _ => CheckVerdict::BadVersion,
        }
    }
}

/// Whether a result of a check reports `verdict`.
pub open spec fn reports(
    r: Result<Option<ReleaseInfo>, UpdateError>,
    verdict: CheckVerdict,
) -> bool {
    match r {
        Ok(None) => verdict == CheckVerdict::NoUpdate,
        Ok(Some(info)) => verdict == CheckVerdict::Candidate(info@),
        Err(e) => match verdict {
            CheckVerdict::BadVersion => e is VersionParse,
            CheckVerdict::UnsupportedPlatform => e is UnsupportedPlatform,
            _ => false,
        },
    }
}

fn copy_text(s: &String) -> (r: String)
    ensures
        r@ == s@,
{
    s.clone()
}

/// Decides whether `release` is an update for a program of version
/// `current_version` running on `target`.
pub fn check_release(release: &GitHubRelease, current_version: &str, target: Target) -> (r: Result<
    Option<ReleaseInfo>,
    UpdateError,
>)
    ensures
        reports(r, release_verdict(*release, current_version@, target)),
{
    if release.draft {
        return Ok(None);
    }
    let remote = match parse_version(release.tag_name.as_str()) {
        Ok(v) => v,
        Err(e) => {
            return Err(e);
        },
    };
    let running = match parse_version(current_version) {
        Ok(v) => v,
        Err(e) => {
            return Err(e);
        },
    };
    if !running.is_before(&remote) {
        return Ok(None);
    }
    let binary = match get_platform_asset(release, target) {
        Some(a) => a,
        None => {
            return Err(UpdateError::UnsupportedPlatform);
        },
    };
    let (checksum_url, checksum_name) = match get_checksum_asset(release, binary.name.as_str()) {
        Some(c) => (Some(copy_text(&c.browser_download_url)), Some(copy_text(&c.name))),
        None => (None, None),
    };
    Ok(
        Some(
            ReleaseInfo {
                version: remote,
                tag_name: copy_text(&release.tag_name),
                binary_url: copy_text(&binary.browser_download_url),
                binary_name: copy_text(&binary.name),
                checksum_url,
                checksum_name,
                size: binary.size,
            },
        ),
    )
}

/// A newer release with a binary for the platform is a candidate; the same
/// release is no update for a program that already runs its version, and an
/// older release is no update for a program that runs a newer one.
pub proof fn lemma_only_newer_releases_are_updates(
    older: GitHubRelease,
    newer: GitHubRelease,
    running_old: Seq<char>,
    running_new: Seq<char>,
    target: Target,
)
    requires
        version_of(older.tag_name@) is Some,
        version_of(newer.tag_name@) is Some,
        version_of(running_old) == version_of(older.tag_name@),
        version_of(running_new) == version_of(newer.tag_name@),
        precedes(version_of(older.tag_name@).unwrap(), version_of(newer.tag_name@).unwrap()),
        !newer.draft,
        platform_asset_index(newer.assets@, target) is Some,
    ensures
        release_verdict(newer, running_old, target) is Candidate,
        release_verdict(older, running_new, target) is NoUpdate,
        release_verdict(older, running_old, target) is NoUpdate,
        release_verdict(newer, running_new, target) is NoUpdate,
{
}

/// A draft is never an update, whatever its tag, its assets and the running
/// version.
pub proof fn lemma_draft_is_no_update(release: GitHubRelease, current: Seq<char>, target: Target)
    requires
        release.draft,
    ensures
        release_verdict(release, current, target) is NoUpdate,
{
}

/// How the updater is set up: fixed when the program is built and started,
/// and handed to every call that depends on it.
#[derive(Debug)]
pub struct UpdateConfig {
    /// Where the latest release is described; without it the updater is off.
    pub release_url: Option<String>,
    /// Whether the program was built for release.
    pub release_build: bool,
    /// The switch from the program's arguments, once it has been set.
    pub auto_update: Option<bool>,
}

impl UpdateConfig {
    /// A configuration whose switch has not been set yet.
    pub fn new(release_url: Option<String>, release_build: bool) -> (config: UpdateConfig)
        ensures
            config.release_url == release_url,
            config.release_build == release_build,
            config.auto_update is None,
    {
        UpdateConfig { release_url, release_build, auto_update: None }
    }
}

/// Whether the program may update itself: only in a release build, with a
/// release endpoint, and unless the switch was set to off.
pub fn is_auto_update_enabled(config: &UpdateConfig) -> (enabled: bool)
    ensures
        enabled == (config.release_build && config.release_url is Some && config.auto_update
            != Some(false)),
{
    config.release_build && config.release_url.is_some() && match config.auto_update {
        Some(enabled) => enabled,
        None => true,
    }
}

/// The switch after an attempt to set it to `enabled`: what it was first set
/// to stays.
pub open spec fn switch_after(switch: Option<bool>, enabled: bool) -> Option<bool> {
    match switch {
        Some(first) => Some(first),
        None => Some(enabled),
    }
}

/// Sets the switch. It can be set once: a later call changes nothing.
pub fn set_auto_update_enabled(config: &mut UpdateConfig, enabled: bool)
    ensures
        final(config).release_url == old(config).release_url,
        final(config).release_build == old(config).release_build,
        final(config).auto_update == switch_after(old(config).auto_update, enabled),
{
    if config.auto_update.is_none() {
        config.auto_update = Some(enabled);
    }
}

/// Once the switch has been set, no attempt to set it changes it.
pub proof fn lemma_switch_is_set_once(switch: Option<bool>, first: bool, later: bool)
    ensures
        switch_after(switch, first) is Some,
        switch_after(switch_after(switch, first), later) == switch_after(switch, first),
        switch is None ==> switch_after(switch, first) == Some(first),
{
}

/// The page under which the releases of a repository are shown by tag, for
/// the address `api` of its latest release; nothing for any other address.
pub open spec fn releases_page(api: Seq<char>) -> Option<Seq<char>> {
    let prefix = "https://api.github.com/repos/"@;
    let suffix = "/releases/latest"@;
    if has_prefix(api, prefix) && has_suffix(
        api.subrange(prefix.len() as int, api.len() as int),
        suffix,
    ) {
        Some(
            "https://github.com/"@ + api.subrange(prefix.len() as int, api.len() - suffix.len())
                + "/releases/tag"@,
        )
    } else {
        None
    }
}

/// The page of the releases by tag that belongs to the configured endpoint.
pub fn get_releases_url(config: &UpdateConfig) -> (url: Option<String>)
    ensures
        text_of(url) == match config.release_url {
            Some(api) => releases_page(api@),
            None => None,
        },
{
    let api = match &config.release_url {
        Some(u) => u.as_str(),
        None => {
            return None;
        },
    };
    let text = chars_of(api);
    let prefix = chars_of("https://api.github.com/repos/");
    let suffix = chars_of("/releases/latest");
    if !starts_with(&text, &prefix) {
        return None;
    }
    let n = text.len();
    let p = prefix.len();
    let s = suffix.len();
    proof {
        if n - p >= s {
            assert(api@.subrange(p as int, n as int).subrange(n - p - s, n - p) =~= api@.subrange(
                n - s,
                n as int,
            ));
        }
    }
    if n - p < s {
        return None;
    }
    if !range_equals(&text, n - s, n, &suffix) {
        return None;
    }
    let owner_repo = api.substring_char(p, n - s);
    Some(String::from_str("https://github.com/").concat(owner_repo).concat("/releases/tag"))
}

/// The label under which the program of version `version` introduces itself
/// to servers.
pub fn user_agent(version: &str) -> (label: String)
    ensures
        label@ == "figma-discord-rp/"@ + version@,
{
    String::from_str("figma-discord-rp/").concat(version)
}

/// How a status code of the release endpoint is read.
#[derive(Clone, Copy, Debug, PartialEq, Eq, Structural)]
pub enum StatusClass {
    /// 2xx: the body describes the latest release.
    Success,
    /// 404: nothing has been released yet.
    NoReleases,
    /// Anything else.
    Failure,
}

/// Reads a status code of the release endpoint.
pub fn classify_status(status: u16) -> (class: StatusClass)
    ensures
        class == (if status == 404 {
            StatusClass::NoReleases
        } else if 200 <= status < 300 {
            StatusClass::Success
        } else {
            StatusClass::Failure
        }),
{
    if status == 404 {
        StatusClass::NoReleases
    } else if 200 <= status && status < 300 {
        StatusClass::Success
    } else {
        StatusClass::Failure
    }
}

/// What came of the request for the latest release.
#[derive(Debug)]
pub enum MetadataResponse {
    /// No answer arrived; the text says why.
    Unreachable(String),
    /// The endpoint answered with `status`. `release` is the release that the
    /// body describes, where the status is a success and the body could be
    /// read as one.
    Answered { status: u16, release: Option<GitHubRelease> },
}

/// What a check comes to, from the configuration and the endpoint's answer.
pub enum CheckOutcome {
    /// The verdict on the release that the endpoint described.
    Decided(CheckVerdict),
    /// The endpoint could not be reached, rejected the request, or sent what
    /// is no release; with the text of the error.
    NetworkFailure(Seq<char>),
}

/// Without an endpoint there is never an update. A 404 means that nothing
/// has been released; any other status outside 2xx, a missing answer and an
/// unreadable body are network failures. Otherwise the release decides.
pub open spec fn check_outcome(
    config: UpdateConfig,
    response: MetadataResponse,
    current: Seq<char>,
    target: Target,
) -> CheckOutcome {
    if config.release_url is None {
        CheckOutcome::Decided(CheckVerdict::NoUpdate)
    } else {
        match response {
            MetadataResponse::Unreachable(why) => CheckOutcome::NetworkFailure(why@),
            MetadataResponse::Answered { status, release } => {
                if status == 404 {
                    CheckOutcome::Decided(CheckVerdict::NoUpdate)
                } else if !(200 <= status < 300) {
                    CheckOutcome::NetworkFailure("unexpected HTTP status"@)
                } else {
                    match release {
                        Some(r) => CheckOutcome::Decided(release_verdict(r, current, target)),
                        None => CheckOutcome::NetworkFailure("invalid release metadata"@),
                    }
                }
            },
        }
    }
}

/// Decides whether the endpoint's answer announces an update for a program
/// of version `current_version` running on `target`.
pub fn check_for_updates(
    config: &UpdateConfig,
    response: &MetadataResponse,
    current_version: &str,
    target: Target,
) -> (r: Result<Option<ReleaseInfo>, UpdateError>)
    ensures
        match check_outcome(*config, *response, current_version@, target) {
            CheckOutcome::Decided(verdict) => reports(r, verdict),
            CheckOutcome::NetworkFailure(why) => r is Err && r->Err_0@
                == UpdateErrorView::Network(why),
        },
{
    if config.release_url.is_none() {
        return Ok(None);
    }
    match response {
        MetadataResponse::Unreachable(why) => Err(UpdateError::Network(copy_text(why))),
        MetadataResponse::Answered { status, release } => {
            match classify_status(*status) {
                StatusClass::NoReleases => Ok(None),
                StatusClass::Failure => Err(
                    UpdateError::Network(String::from_str("unexpected HTTP status")),
                ),
                StatusClass::Success => match release {
                    Some(r) => check_release(r, current_version, target),
                    None => Err(UpdateError::Network(String::from_str("invalid release metadata"))),
                },
            }
        },
    }
}

} // verus!
