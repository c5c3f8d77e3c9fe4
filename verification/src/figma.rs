//! What is known of the running Figma application, and how it is shown.

use vstd::prelude::*;
use vstd::string::StringExecFns;
use crate::text::{chars_of, lowercase, range_equals, to_lowercase};

verus! {

/// Seconds without focus after which the user counts as idle.
pub const IDLE_THRESHOLD_SECONDS: u64 = 300;

/// `std::time::Instant`: a moment of the machine's clock. It is carried as
/// it comes; nothing is known of what it holds.
#[verifier::external_type_specification]
#[verifier::external_body]
pub struct ExInstant(std::time::Instant);

/// The editor in which a tab is open.
#[derive(Clone, Copy, Debug, PartialEq, Eq, Structural)]
pub enum EditorType {
    Design,
    Whiteboard,
    Slides,
    Sites,
    Buzz,
    Make,
    DevMode,
    Other,
}

/// The key under which an editor is known in the settings.
pub open spec fn editor_key(editor: EditorType) -> Seq<char> {
    match editor {
        EditorType::Design => "design"@,
        EditorType::Whiteboard => "whiteboard"@,
        EditorType::Slides => "slides"@,
        EditorType::Sites => "sites"@,
        EditorType::Buzz => "buzz"@,
        EditorType::Make => "make"@,
        EditorType::DevMode => "dev_mode"@,
        EditorType::Other => "other"@,
    }
}

/// What the user is shown to be doing in an editor.
pub open spec fn editor_label(editor: EditorType) -> Seq<char> {
    match editor {
        EditorType::Design => "Designing"@,
        EditorType::Whiteboard => "Whiteboarding"@,
        EditorType::Slides => "Presenting"@,
        EditorType::Sites => "Building a site"@,
        EditorType::Buzz => "Buzzing"@,
        EditorType::Make => "Making"@,
        EditorType::DevMode => "Dev Mode"@,
        EditorType::Other => "Working"@,
    }
}

impl Default for EditorType {
    fn default() -> (editor: EditorType)
        ensures
            editor == EditorType::Design,
    {
        EditorType::Design
    }
}

impl EditorType {
    /// The key under which this editor is known in the settings.
    pub fn key(&self) -> (key: &'static str)
        ensures
            key@ == editor_key(*self),
    {
        match self {
            EditorType::Design => "design",
            EditorType::Whiteboard => "whiteboard",
            EditorType::Slides => "slides",
            EditorType::Sites => "sites",
            EditorType::Buzz => "buzz",
            EditorType::Make => "make",
            EditorType::DevMode => "dev_mode",
            EditorType::Other => "other",
        }
    }

    /// What the user is shown to be doing in this editor.
    pub fn label(&self) -> (label: &'static str)
        ensures
            label@ == editor_label(*self),
    {
        match self {
            EditorType::Design => "Designing",
            EditorType::Whiteboard => "Whiteboarding",
            EditorType::Slides => "Presenting",
            EditorType::Sites => "Building a site",
            EditorType::Buzz => "Buzzing",
            EditorType::Make => "Making",
            EditorType::DevMode => "Dev Mode",
            EditorType::Other => "Working",
        }
    }
}

/// A tab as Figma's own settings file describes it.
#[derive(Clone, Debug)]
pub struct FigmaTab {
    pub title: Option<String>,
    pub editor_type: Option<EditorType>,
    pub is_library: Option<bool>,
    pub last_viewed_at: Option<i64>,
}

impl Default for FigmaTab {
    fn default() -> (tab: FigmaTab)
        ensures
            tab.title is None,
            tab.editor_type is None,
            tab.is_library is None,
            tab.last_viewed_at is None,
    {
        FigmaTab { title: None, editor_type: None, is_library: None, last_viewed_at: None }
    }
}

/// The tab in use and the moment at which Figma last had the focus.
#[derive(Clone, Debug)]
pub struct FigmaState {
    pub active_tab: Option<FigmaTab>,
    pub last_focused_at: Option<std::time::Instant>,
}

impl Default for FigmaState {
    fn default() -> (state: FigmaState)
        ensures
            state.active_tab is None,
            state.last_focused_at is None,
    {
        FigmaState { active_tab: None, last_focused_at: None }
    }
}

/// The editor of the tab in use; a tab that names none counts as a design
/// file.
pub open spec fn active_editor(state: FigmaState) -> Option<EditorType> {
    match state.active_tab {
        Some(tab) => match tab.editor_type {
            Some(editor) => Some(editor),
            None => Some(EditorType::Design),
        },
        None => None,
    }
}

/// Whether a user who last had Figma in focus `elapsed` seconds ago, or
/// never, is idle.
pub open spec fn idle_after(elapsed: Option<u64>) -> bool {
    match elapsed {
        Some(seconds) => seconds >= IDLE_THRESHOLD_SECONDS,
        None => true,
    }
}

/// Whether a user who last had Figma in focus `elapsed` seconds ago, or
/// never, is idle.
pub fn is_idle_after(elapsed: Option<u64>) -> (idle: bool)
    ensures
        idle == idle_after(elapsed),
{
    match elapsed {
        Some(seconds) => seconds >= IDLE_THRESHOLD_SECONDS,
        None => true,
    }
}

/// Whole seconds from `moment` to now, by `Instant::elapsed`. Nothing is
/// claimed of the number: it depends on the clock.
#[verifier::external_body]
fn seconds_since(moment: &std::time::Instant) -> (seconds: u64) {
    moment.elapsed().as_secs()
}

impl FigmaState {
    /// Whether the user is idle now. Without a moment of focus the user is.
    pub fn is_idle(&self) -> (idle: bool)
        ensures
            self.last_focused_at is None ==> idle,
    {
        match &self.last_focused_at {
            Some(moment) => is_idle_after(Some(seconds_since(moment))),
            None => is_idle_after(None),
        }
    }

    /// The key of the state to show: the editor's, or `browsing` without a
    /// tab.
    pub fn state_key(&self) -> (key: &'static str)
        ensures
            key@ == match active_editor(*self) {
                Some(editor) => editor_key(editor),
                None => "browsing"@,
            },
    {
        match &self.active_tab {
            None => "browsing",
            Some(tab) => match &tab.editor_type {
                Some(editor) => editor.key(),
                None => EditorType::Design.key(),
            },
        }
    }

    /// What the user is shown to be doing.
    pub fn status(&self) -> (status: String)
        ensures
            status@ == match active_editor(*self) {
                Some(editor) => editor_label(editor),
                None => "Browsing"@,
            },
    {
        match &self.active_tab {
            None => String::from_str("Browsing"),
            Some(tab) => match &tab.editor_type {
                Some(editor) => String::from_str(editor.label()),
                None => String::from_str(EditorType::Design.label()),
            },
        }
    }
}

/// What a look at the running system found of Figma.
#[derive(Debug)]
pub enum Sighting {
    /// No process of Figma runs.
    NoProcess,
    /// Figma runs, but its settings could not be read.
    Unreadable,
    /// Figma runs, with this tab in use, if any.
    Tabs(Option<FigmaTab>),
}

/// What a look at Figma changed.
#[derive(Clone, Copy, Debug, PartialEq, Eq, Structural)]
pub struct Change {
    /// Whether Figma counts as connected from now on.
    pub connected: bool,
    /// Figma was not connected before and is now.
    pub came: bool,
    /// Figma was connected before and is not any more.
    pub went: bool,
    /// Another tab is in use than before.
    pub tab_changed: bool,
}

/// The characters of an optional title.
pub open spec fn title_of(title: Option<String>) -> Option<Seq<char>> {
    match title {
        Some(t) => Some(t@),
        None => None,
    }
}

/// Whether two tabs, or their absence, are the same in every part.
pub open spec fn same_tab(a: Option<FigmaTab>, b: Option<FigmaTab>) -> bool {
    match (a, b) {
        (Some(x), Some(y)) => {
            &&& title_of(x.title) == title_of(y.title)
            &&& x.editor_type == y.editor_type
            &&& x.is_library == y.is_library
            &&& x.last_viewed_at == y.last_viewed_at
        },
        (None, None) => true,
        _ => false,
    }
}

/// The state after a look at Figma that found `sighting`, for a state that
/// was connected or not; `focused_at` is the moment of the look where Figma
/// had the focus. While Figma is away the state is empty.
pub open spec fn state_after(
    state: FigmaState,
    was_connected: bool,
    sighting: Sighting,
    focused_at: Option<std::time::Instant>,
) -> FigmaState {
    match sighting {
        Sighting::Tabs(tab) => FigmaState {
            active_tab: if same_tab(tab, state.active_tab) {
                state.active_tab
            } else {
                tab
            },
            last_focused_at: if focused_at is Some {
                focused_at
            } else {
                state.last_focused_at
            },
        },
        _ => if was_connected {
            FigmaState { active_tab: None, last_focused_at: None }
        } else {
            state
        },
    }
}

/// What a look at Figma that found `sighting` changed.
pub open spec fn change_after(
    state: FigmaState,
    was_connected: bool,
    sighting: Sighting,
) -> Change {
    match sighting {
        Sighting::Tabs(tab) => Change {
            connected: true,
            came: !was_connected,
            went: false,
            tab_changed: !same_tab(tab, state.active_tab),
        },
        _ => Change { connected: false, came: false, went: was_connected, tab_changed: false },
    }
}

fn same_title(a: &Option<String>, b: &Option<String>) -> (same: bool)
    ensures
        same == (title_of(*a) == title_of(*b)),
{
    match (a, b) {
        (Some(x), Some(y)) => *x == *y,
        (None, None) => true,
        _ => false,
    }
}

fn same_editor(a: &Option<EditorType>, b: &Option<EditorType>) -> (same: bool)
    ensures
        same == (*a == *b),
{
    match (a, b) {
        (Some(x), Some(y)) => *x == *y,
        (None, None) => true,
        _ => false,
    }
}

fn same_flag(a: &Option<bool>, b: &Option<bool>) -> (same: bool)
    ensures
        same == (*a == *b),
{
    match (a, b) {
        (Some(x), Some(y)) => *x == *y,
        (None, None) => true,
        _ => false,
    }
}

fn same_time(a: &Option<i64>, b: &Option<i64>) -> (same: bool)
    ensures
        same == (*a == *b),
{
    match (a, b) {
        (Some(x), Some(y)) => *x == *y,
        (None, None) => true,
        _ => false,
    }
}

/// Whether two tabs, or their absence, are the same in every part.
pub fn tabs_equal(a: &Option<FigmaTab>, b: &Option<FigmaTab>) -> (same: bool)
    ensures
        same == same_tab(*a, *b),
{
    match (a, b) {
        (Some(x), Some(y)) => same_title(&x.title, &y.title) && same_editor(
            &x.editor_type,
            &y.editor_type,
        ) && same_flag(&x.is_library, &y.is_library) && same_time(
            &x.last_viewed_at,
            &y.last_viewed_at,
        ),
        (None, None) => true,
        _ => false,
    }
}

impl FigmaState {
    /// Takes in what a look at Figma found and says what it changed.
    pub fn observe(
        &mut self,
        was_connected: bool,
        sighting: Sighting,
        focused_at: Option<std::time::Instant>,
    ) -> (change: Change)
        ensures
            *final(self) == state_after(*old(self), was_connected, sighting, focused_at),
            change == change_after(*old(self), was_connected, sighting),
    {
        match sighting {
            Sighting::Tabs(tab) => {
                let tab_changed = !tabs_equal(&tab, &self.active_tab);
                if tab_changed {
                    self.active_tab = tab;
                }
                if focused_at.is_some() {
                    self.last_focused_at = focused_at;
                }
                Change { connected: true, came: !was_connected, went: false, tab_changed }
            },
            _ => {
                if was_connected {
                    self.active_tab = None;
                    self.last_focused_at = None;
                }
                Change { connected: false, came: false, went: was_connected, tab_changed: false }
            },
        }
    }
}

/// By how much a tab was viewed later than others: a tab without a time
/// comes before all that have one.
pub open spec fn viewed_rank(tab: FigmaTab) -> int {
    match tab.last_viewed_at {
        Some(at) => at as int,
        None => i64::MIN - 1,
    }
}

/// Whether `i` is the tab in use among `tabs`: none was viewed later, and of
/// those viewed at the same time it is the last in the list.
pub open spec fn is_latest_tab(tabs: Seq<FigmaTab>, i: int) -> bool {
    &&& 0 <= i < tabs.len()
    &&& forall|j: int|
        0 <= j < tabs.len() ==> viewed_rank(#[trigger] tabs[j]) <= viewed_rank(tabs[i])
    &&& forall|j: int|
        i < j < tabs.len() ==> viewed_rank(#[trigger] tabs[j]) < viewed_rank(tabs[i])
}

fn rank_of(tab: &FigmaTab) -> (rank: i128)
    ensures
        rank == viewed_rank(*tab),
{
    match tab.last_viewed_at {
        Some(at) => at as i128,
        None => i64::MIN as i128 - 1,
    }
}

/// The index of the tab in use among the tabs of all windows: the one viewed
/// last. Nothing, if there is no tab.
pub fn latest_tab(tabs: &Vec<FigmaTab>) -> (found: Option<usize>)
    ensures
        match found {
            Some(i) => is_latest_tab(tabs@, i as int),
            None => tabs@.len() == 0,
        },
{
    if tabs.len() == 0 {
        return None;
    }
    let mut best: usize = 0;
    let mut i: usize = 1;
    while i < tabs.len()
        invariant
            0 <= best < i <= tabs.len(),
            forall|j: int|
                0 <= j < i ==> viewed_rank(#[trigger] tabs@[j]) <= viewed_rank(tabs@[best as int]),
            forall|j: int|
                best < j < i ==> viewed_rank(#[trigger] tabs@[j]) < viewed_rank(tabs@[best as int]),
        decreases tabs.len() - i,
    {
        if rank_of(&tabs[i]) >= rank_of(&tabs[best]) {
            best = i;
        }
        i += 1;
    }
    Some(best)
}

/// `pattern` occurs in `s`.
pub open spec fn contains(s: Seq<char>, pattern: Seq<char>) -> bool {
    exists|i: int|
        0 <= i <= s.len() - pattern.len() && #[trigger] s.subrange(i, i + pattern.len())
            == pattern
}

/// Whether a name mentions Figma, in any letter case.
pub open spec fn names_figma(name: Seq<char>) -> bool {
    contains(lowercase(name), "figma"@)
}

/// Whether a name of a process or a window mentions Figma, in any letter
/// case.
pub fn mentions_figma(name: &str) -> (found: bool)
    ensures
        found == names_figma(name@),
{
    let lowered = to_lowercase(name);
    let text = chars_of(lowered.as_str());
    let pattern = chars_of("figma");
    proof {
        reveal_strlit("figma");
    }
    let n = text.len();
    let m = pattern.len();
    if m > n {
        return false;
    }
    let mut i: usize = 0;
    while i <= n - m
        invariant
            0 < m <= n,
            n == text.len(),
            m == pattern.len(),
            text@ == lowercase(name@),
            pattern@ == "figma"@,
            i <= n - m + 1,
            forall|j: int| 0 <= j < i ==> #[trigger] text@.subrange(j, j + m) != pattern@,
        decreases n - m + 1 - i,
    {
        if range_equals(&text, i, i + m, &pattern) {
            return true;
        }
        i += 1;
    }
    false
}

/// The first process in `processes` whose name mentions Figma.
pub fn find_figma_pid(processes: &Vec<(u32, String)>) -> (pid: Option<u32>)
    ensures
        match pid {
            Some(id) => exists|i: int|
                {
                    &&& 0 <= i < processes@.len()
                    &&& #[trigger] processes@[i].0 == id
                    &&& names_figma(processes@[i].1@)
                    &&& forall|j: int| 0 <= j < i ==> !names_figma(#[trigger] processes@[j].1@)
                },
            None => forall|j: int|
                0 <= j < processes@.len() ==> !names_figma(#[trigger] processes@[j].1@),
        },
{
    let mut i: usize = 0;
    while i < processes.len()
        invariant
            i <= processes.len(),
            forall|j: int| 0 <= j < i ==> !names_figma(#[trigger] processes@[j].1@),
        decreases processes.len() - i,
    {
        if mentions_figma(processes[i].1.as_str()) {
            return Some(processes[i].0);
        }
        i += 1;
    }
    None
}

/// Whether the window in front, with the name of its application and its
/// title, is Figma's.
pub fn is_figma_focused(app_name: &str, title: &str) -> (focused: bool)
    ensures
        focused == (names_figma(app_name@) || names_figma(title@)),
{
    mentions_figma(app_name) || mentions_figma(title)
}

} // verus!
