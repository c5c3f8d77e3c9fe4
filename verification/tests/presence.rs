use figma_discord_rp::figma::{
    find_figma_pid, is_figma_focused, is_idle_after, latest_tab, mentions_figma, tabs_equal,
    Change, EditorType, FigmaState, FigmaTab, Sighting, IDLE_THRESHOLD_SECONDS,
};
use figma_discord_rp::logging::{module_label, version_label, LogLevel};
use figma_discord_rp::presence::{presence_for, Session};
use figma_discord_rp::settings::{
    state_entries, AppName, ImageOverride, Settings, FALLBACK_IMAGE,
};
use std::time::Instant;

fn tab(editor: Option<EditorType>, viewed: Option<i64>) -> FigmaTab {
    FigmaTab { title: Some("File".to_string()), editor_type: editor, is_library: None, last_viewed_at: viewed }
}

#[test]
fn editor_keys_and_labels() {
    let all = [
        (EditorType::Design, "design", "Designing"),
        (EditorType::Whiteboard, "whiteboard", "Whiteboarding"),
        (EditorType::Slides, "slides", "Presenting"),
        (EditorType::Sites, "sites", "Building a site"),
        (EditorType::Buzz, "buzz", "Buzzing"),
        (EditorType::Make, "make", "Making"),
        (EditorType::DevMode, "dev_mode", "Dev Mode"),
        (EditorType::Other, "other", "Working"),
    ];
    for (editor, key, label) in all {
        assert_eq!(editor.key(), key);
        assert_eq!(editor.label(), label);
    }
    assert_eq!(EditorType::default(), EditorType::Design);
}

#[test]
fn state_without_a_tab_is_browsing() {
    let state = FigmaState::default();
    assert_eq!(state.state_key(), "browsing");
    assert_eq!(state.status(), "Browsing");
    assert!(state.is_idle());
}

#[test]
fn state_follows_the_editor_of_the_tab() {
    let slides = FigmaState { active_tab: Some(tab(Some(EditorType::Slides), None)), last_focused_at: None };
    assert_eq!(slides.state_key(), "slides");
    assert_eq!(slides.status(), "Presenting");
    let plain = FigmaState { active_tab: Some(tab(None, None)), last_focused_at: None };
    assert_eq!(plain.state_key(), "design");
    assert_eq!(plain.status(), "Designing");
    let dev = FigmaState { active_tab: Some(tab(Some(EditorType::DevMode), Some(1))), last_focused_at: None };
    assert_eq!(dev.state_key(), "dev_mode");
    assert_eq!(dev.status(), "Dev Mode");
}

#[test]
fn idle_after_the_threshold() {
    assert_eq!(IDLE_THRESHOLD_SECONDS, 300);
    assert!(is_idle_after(None));
    assert!(!is_idle_after(Some(0)));
    assert!(!is_idle_after(Some(299)));
    assert!(is_idle_after(Some(300)));
    assert!(is_idle_after(Some(u64::MAX)));
    let fresh = FigmaState { active_tab: None, last_focused_at: Some(Instant::now()) };
    assert!(!fresh.is_idle());
}

#[test]
fn latest_tab_is_the_one_viewed_last() {
    assert_eq!(latest_tab(&vec![]), None);
    let tabs = vec![tab(None, Some(5)), tab(None, Some(9)), tab(None, None), tab(None, Some(7))];
    assert_eq!(latest_tab(&tabs), Some(1));
    let ties = vec![tab(None, Some(9)), tab(None, Some(2)), tab(None, Some(9))];
    assert_eq!(latest_tab(&ties), Some(2));
    let unseen = vec![tab(None, None), tab(None, None)];
    assert_eq!(latest_tab(&unseen), Some(1));
    let low = vec![tab(None, None), tab(None, Some(i64::MIN))];
    assert_eq!(latest_tab(&low), Some(1));
    let low_first = vec![tab(None, Some(i64::MIN)), tab(None, None)];
    assert_eq!(latest_tab(&low_first), Some(0));
}

#[test]
fn names_that_mention_figma() {
    assert!(mentions_figma("figma"));
    assert!(mentions_figma("Figma.exe"));
    assert!(mentions_figma("C:\\Apps\\FIGMA Agent"));
    assert!(mentions_figma("xfigmax"));
    assert!(!mentions_figma("figm"));
    assert!(!mentions_figma("fig ma"));
    assert!(!mentions_figma(""));
}

#[test]
fn first_figma_process() {
    let processes = vec![
        (10, "bash".to_string()),
        (20, "Figma Helper".to_string()),
        (30, "figma".to_string()),
    ];
    assert_eq!(find_figma_pid(&processes), Some(20));
    assert_eq!(find_figma_pid(&vec![(1, "init".to_string())]), None);
    assert_eq!(find_figma_pid(&vec![]), None);
}

#[test]
fn focused_window() {
    assert!(is_figma_focused("Figma", "Untitled"));
    assert!(is_figma_focused("chrome", "Draft - FIGMA"));
    assert!(!is_figma_focused("chrome", "Mail"));
}

#[test]
fn default_settings() {
    let s = Settings::default();
    assert_eq!(s.default_image, "");
    assert!(!s.hide_filename);
    assert!(!s.disable_idle);
    assert!(matches!(s.app_name, AppName::Figma));
    let keys: Vec<&str> = s.image_overrides.iter().map(|(k, _)| k.as_str()).collect();
    assert_eq!(
        keys,
        vec!["design", "whiteboard", "slides", "sites", "buzz", "make", "dev_mode", "other", "idle"]
    );
    assert!(s.image_overrides.iter().all(|(_, o)| !o.enabled && o.image_url.is_empty()));
    let entries = state_entries();
    assert_eq!(entries.len(), 9);
    assert_eq!(entries[3], ("sites", "Building a Site"));
    assert_eq!(entries[8], ("idle", "Idle"));
}

#[test]
fn resolved_app_names() {
    let mut s = Settings::default();
    assert_eq!(s.resolved_app_name(), "Figma");
    s.app_name = AppName::FigmaDesktop;
    assert_eq!(s.resolved_app_name(), "Figma Desktop");
    s.app_name = AppName::Custom(String::new());
    assert_eq!(s.resolved_app_name(), "Figma");
    s.app_name = AppName::Custom("Sketchpad".to_string());
    assert_eq!(s.resolved_app_name(), "Sketchpad");
}

#[test]
fn image_for_a_state() {
    let mut s = Settings::default();
    assert_eq!(FALLBACK_IMAGE, "defaulticon");
    assert_eq!(s.image_url_for_state("design"), "defaulticon");
    assert_eq!(s.image_url_for_state("unknown"), "defaulticon");
    s.default_image = "https://img/default.png".to_string();
    assert_eq!(s.image_url_for_state("design"), "https://img/default.png");
    assert_eq!(s.image_url_for_state("unknown"), "https://img/default.png");
    s.set_override("design", ImageOverride { enabled: true, image_url: "https://img/d.png".to_string() });
    assert_eq!(s.image_overrides.len(), 9);
    assert_eq!(s.image_url_for_state("design"), "https://img/d.png");
    assert_eq!(s.image_url_for_state("slides"), "https://img/default.png");
    s.set_override("design", ImageOverride { enabled: false, image_url: "https://img/d.png".to_string() });
    assert_eq!(s.image_url_for_state("design"), "https://img/default.png");
    s.set_override("design", ImageOverride { enabled: true, image_url: String::new() });
    assert_eq!(s.image_url_for_state("design"), "https://img/default.png");
    s.set_override("extra", ImageOverride { enabled: true, image_url: "https://img/x.png".to_string() });
    assert_eq!(s.image_overrides.len(), 10);
    assert_eq!(s.image_url_for_state("extra"), "https://img/x.png");
}

#[test]
fn log_line_parts() {
    assert_eq!(LogLevel::Debug.label(), "DEBUG");
    assert_eq!(LogLevel::Info.label(), "INFO");
    assert_eq!(LogLevel::Warn.label(), "WARN");
    assert_eq!(LogLevel::Error.label(), "ERROR");
    assert!(LogLevel::Debug.is_printed(true));
    assert!(!LogLevel::Debug.is_printed(false));
    assert!(LogLevel::Info.is_printed(false));
    assert!(LogLevel::Error.is_printed(false));
    assert_eq!(version_label("1.2.3", true), "dev");
    assert_eq!(version_label("1.2.3", false), "v1.2.3");
    assert_eq!(module_label("updater"), "[updater]");
}

#[test]
fn presence_of_an_open_file() {
    let figma = FigmaState {
        active_tab: Some(FigmaTab {
            title: Some("Landing page".to_string()),
            editor_type: Some(EditorType::Whiteboard),
            is_library: None,
            last_viewed_at: Some(3),
        }),
        last_focused_at: None,
    };
    let mut settings = Settings::default();
    settings.set_override(
        "whiteboard",
        ImageOverride { enabled: true, image_url: "https://img/w.png".to_string() },
    );
    settings.set_override(
        "idle",
        ImageOverride { enabled: true, image_url: "https://img/idle.png".to_string() },
    );
    let busy = presence_for(&figma, &settings, false);
    assert_eq!(busy.state, "Whiteboarding");
    assert_eq!(busy.details.as_deref(), Some("File: Landing page"));
    assert_eq!(busy.image_url, "https://img/w.png");
    assert_eq!(busy.app_name, "Figma");

    let idle = presence_for(&figma, &settings, true);
    assert_eq!(idle.state, "Idle");
    assert_eq!(idle.image_url, "https://img/idle.png");
    assert_eq!(idle.details.as_deref(), Some("File: Landing page"));

    settings.disable_idle = true;
    settings.hide_filename = true;
    settings.app_name = AppName::Custom("Studio".to_string());
    let shown = presence_for(&figma, &settings, true);
    assert_eq!(shown.state, "Whiteboarding");
    assert_eq!(shown.image_url, "https://img/w.png");
    assert_eq!(shown.details, None);
    assert_eq!(shown.app_name, "Studio");
}

#[test]
fn presence_without_title_or_tab() {
    let settings = Settings::default();
    let untitled = FigmaState {
        active_tab: Some(FigmaTab::default()),
        last_focused_at: None,
    };
    let p = presence_for(&untitled, &settings, false);
    assert_eq!(p.details.as_deref(), Some("File: Unknown"));
    assert_eq!(p.state, "Designing");
    assert_eq!(p.image_url, "defaulticon");
    let none = presence_for(&FigmaState::default(), &settings, false);
    assert_eq!(none.state, "Browsing");
    assert_eq!(none.details.as_deref(), Some("File: Unknown"));
}

#[test]
fn session_starts_once_and_ends_out_of_view() {
    let mut s = Session::new();
    assert_eq!(s.started_at, None);
    assert_eq!(s.observe(false, 10), None);
    assert_eq!(s.observe(true, 20), Some(20));
    assert_eq!(s.observe(true, 35), Some(20));
    assert_eq!(s.observe(false, 50), None);
    assert_eq!(s.observe(true, 65), Some(65));
    assert_eq!(s.started_at, Some(65));
}

#[test]
fn looks_at_figma() {
    let mut state = FigmaState::default();
    let first = tab(Some(EditorType::Design), Some(1));
    let c = state.observe(false, Sighting::Tabs(Some(first.clone())), None);
    assert_eq!(c, Change { connected: true, came: true, went: false, tab_changed: true });
    assert!(tabs_equal(&state.active_tab, &Some(first.clone())));
    assert!(state.last_focused_at.is_none());

    let now = Instant::now();
    let c = state.observe(true, Sighting::Tabs(Some(first.clone())), Some(now));
    assert_eq!(c, Change { connected: true, came: false, went: false, tab_changed: false });
    assert_eq!(state.last_focused_at, Some(now));

    let second = tab(Some(EditorType::Slides), Some(2));
    let c = state.observe(true, Sighting::Tabs(Some(second.clone())), None);
    assert_eq!(c, Change { connected: true, came: false, went: false, tab_changed: true });
    assert!(tabs_equal(&state.active_tab, &Some(second)));
    assert_eq!(state.last_focused_at, Some(now));

    let c = state.observe(true, Sighting::Tabs(None), None);
    assert!(c.tab_changed);
    assert!(state.active_tab.is_none());
    assert_eq!(state.last_focused_at, Some(now));

    let c = state.observe(true, Sighting::Unreadable, Some(now));
    assert_eq!(c, Change { connected: false, came: false, went: true, tab_changed: false });
    assert!(state.active_tab.is_none());
    assert!(state.last_focused_at.is_none());

    state.active_tab = Some(first.clone());
    let c = state.observe(false, Sighting::NoProcess, None);
    assert_eq!(c, Change { connected: false, came: false, went: false, tab_changed: false });
    assert!(state.active_tab.is_some());
    let c = state.observe(true, Sighting::NoProcess, None);
    assert!(c.went);
    assert!(state.active_tab.is_none());
}

#[test]
fn tabs_are_compared_in_every_part() {
    let a = tab(Some(EditorType::Design), Some(1));
    assert!(tabs_equal(&Some(a.clone()), &Some(a.clone())));
    assert!(tabs_equal(&None, &None));
    assert!(!tabs_equal(&Some(a.clone()), &None));
    assert!(!tabs_equal(&None, &Some(a.clone())));
    let mut b = a.clone();
    b.title = Some("Other".to_string());
    assert!(!tabs_equal(&Some(a.clone()), &Some(b)));
    let mut c = a.clone();
    c.title = None;
    assert!(!tabs_equal(&Some(a.clone()), &Some(c)));
    let mut d = a.clone();
    d.editor_type = None;
    assert!(!tabs_equal(&Some(a.clone()), &Some(d)));
    let mut e = a.clone();
    e.is_library = Some(false);
    assert!(!tabs_equal(&Some(a.clone()), &Some(e)));
    let mut f = a.clone();
    f.last_viewed_at = Some(2);
    assert!(!tabs_equal(&Some(a), &Some(f)));
}
