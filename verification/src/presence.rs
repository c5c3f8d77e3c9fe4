//! What is published as rich presence, from the state of Figma and the
//! user's settings.

use vstd::prelude::*;
use vstd::string::StringExecFns;
use crate::figma::{active_editor, editor_key, editor_label, FigmaState};
use crate::settings::{image_for, resolved_name, Settings};

verus! {

/// One activity to publish.
#[derive(Debug)]
pub struct Presence {
    /// The line that names the file; absent where file names are hidden.
    pub details: Option<String>,
    /// What the user is doing.
    pub state: String,
    /// The image to show.
    pub image_url: String,
    /// The name under which the application is shown.
    pub app_name: String,
}

/// Whether the idle state is shown: the user is idle and has not switched
/// idle detection off.
pub open spec fn shows_idle(settings: Settings, idle: bool) -> bool {
    idle && !settings.disable_idle
}

/// The key of the state to show.
pub open spec fn shown_key(figma: FigmaState, settings: Settings, idle: bool) -> Seq<char> {
    if shows_idle(settings, idle) {
        "idle"@
    } else {
        match active_editor(figma) {
            Some(editor) => editor_key(editor),
            None => "browsing"@,
        }
    }
}

/// What the user is shown to be doing.
pub open spec fn shown_state(figma: FigmaState, settings: Settings, idle: bool) -> Seq<char> {
    if shows_idle(settings, idle) {
        "Idle"@
    } else {
        match active_editor(figma) {
            Some(editor) => editor_label(editor),
            None => "Browsing"@,
        }
    }
}

/// The title of the tab in use, or `Unknown` where it has none.
pub open spec fn shown_title(figma: FigmaState) -> Seq<char> {
    match figma.active_tab {
        Some(tab) => match tab.title {
            Some(title) => title@,
            None => "Unknown"@,
        },
        None => "Unknown"@,
    }
}

/// The line that names the file, unless file names are hidden.
pub open spec fn shown_details(figma: FigmaState, settings: Settings) -> Option<Seq<char>> {
    if settings.hide_filename {
        None
    } else {
        Some("File: "@ + shown_title(figma))
    }
}

/// The activity to publish for `figma` under `settings`, for a user who is
/// idle or not.
pub fn presence_for(figma: &FigmaState, settings: &Settings, idle: bool) -> (p: Presence)
    ensures
        p.state@ == shown_state(*figma, *settings, idle),
        p.image_url@ == image_for(*settings, shown_key(*figma, *settings, idle)),
        p.app_name@ == resolved_name(settings.app_name),
        match p.details {
            Some(line) => shown_details(*figma, *settings) == Some(line@),
            None => shown_details(*figma, *settings) is None,
        },
{
    let title: &str = match &figma.active_tab {
        Some(tab) => match &tab.title {
            Some(title) => title.as_str(),
            None => "Unknown",
        },
        None => "Unknown",
    };
    let show_idle = idle && !settings.disable_idle;
    let state = if show_idle {
        String::from_str("Idle")
    } else {
        figma.status()
    };
    let key: &str = if show_idle {
        "idle"
    } else {
        figma.state_key()
    };
    let details = if settings.hide_filename {
        None
    } else {
        Some(String::from_str("File: ").concat(title))
    };
    Presence {
        details,
        state,
        image_url: String::from_str(settings.image_url_for_state(key)),
        app_name: String::from_str(settings.resolved_app_name()),
    }
}

/// Since when the present session is shown: it starts when a file comes into
/// view and ends when none is in view any more.
#[derive(Clone, Copy, Debug)]
pub struct Session {
    /// Seconds since the epoch at which the session started, while one runs.
    pub started_at: Option<i64>,
}

/// The session after a look at Figma at the time `now`: with a file in view
/// a running session goes on and a new one starts at `now`; without one
/// there is no session.
pub open spec fn session_after(session: Session, in_view: bool, now: i64) -> Session {
    if !in_view {
        Session { started_at: None }
    } else if session.started_at is Some {
        session
    } else {
        Session { started_at: Some(now) }
    }
}

impl Session {
    /// No session.
    pub fn new() -> (session: Session)
        ensures
            session.started_at is None,
    {
        Session { started_at: None }
    }

    /// Takes note of whether a file is in view at the time `now`, and says
    /// since when the session runs: nothing means that the activity is to be
    /// cleared.
    pub fn observe(&mut self, in_view: bool, now: i64) -> (started_at: Option<i64>)
        ensures
            *final(self) == session_after(*old(self), in_view, now),
            started_at == final(self).started_at,
            started_at is Some <==> in_view,
    {
        if !in_view {
            self.started_at = None;
        } else if self.started_at.is_none() {
            self.started_at = Some(now);
        }
        self.started_at
    }
}

} // verus!
