//! The user's settings and what follows from them for the presence shown.

use vstd::prelude::*;
use vstd::string::StringExecFns;

verus! {

/// The image shown where the settings name none.
pub const FALLBACK_IMAGE: &'static str = "defaulticon";

/// The name under which the application is shown.
#[derive(Clone, Debug)]
pub enum AppName {
    Figma,
    FigmaDesktop,
    Custom(String),
}

impl Default for AppName {
    fn default() -> (name: AppName)
        ensures
            name is Figma,
    {
        AppName::Figma
    }
}

/// An image of the user's own for one state.
#[derive(Clone, Debug)]
pub struct ImageOverride {
    pub enabled: bool,
    pub image_url: String,
}

impl Default for ImageOverride {
    fn default() -> (image: ImageOverride)
        ensures
            !image.enabled,
            image.image_url@ == Seq::<char>::empty(),
    {
        ImageOverride { enabled: false, image_url: String::new() }
    }
}

/// The user's settings. `image_overrides` maps the key of a state to its
/// image: each key stands in it once at most.
#[derive(Clone, Debug)]
pub struct Settings {
    pub default_image: String,
    pub image_overrides: Vec<(String, ImageOverride)>,
    pub hide_filename: bool,
    pub disable_idle: bool,
    pub app_name: AppName,
}

/// The keys of the states that can be shown, in the order of the settings
/// window.
pub open spec fn state_keys() -> Seq<Seq<char>> {
    seq![
        "design"@,
        "whiteboard"@,
        "slides"@,
        "sites"@,
        "buzz"@,
        "make"@,
        "dev_mode"@,
        "other"@,
        "idle"@,
    ]
}

/// No key stands twice among the keys of the states.
pub proof fn lemma_state_keys_are_distinct()
    ensures
        forall|i: int, j: int|
            0 <= i < j < state_keys().len() ==> state_keys()[i] != state_keys()[j],
{
    reveal_strlit("design");
    reveal_strlit("whiteboard");
    reveal_strlit("slides");
    reveal_strlit("sites");
    reveal_strlit("buzz");
    reveal_strlit("make");
    reveal_strlit("dev_mode");
    reveal_strlit("other");
    reveal_strlit("idle");
    let keys = state_keys();
    assert(keys[0].len() == 6 && keys[0][0] == 'd');
    assert(keys[1].len() == 10);
    assert(keys[2].len() == 6 && keys[2][0] == 's');
    assert(keys[3].len() == 5 && keys[3][0] == 's');
    assert(keys[4].len() == 4 && keys[4][0] == 'b');
    assert(keys[5].len() == 4 && keys[5][0] == 'm');
    assert(keys[6].len() == 8);
    assert(keys[7].len() == 5 && keys[7][0] == 'o');
    assert(keys[8].len() == 4 && keys[8][0] == 'i');
}

/// The words that the settings window shows for each state, in the order of
/// `state_keys`.
pub open spec fn state_labels() -> Seq<Seq<char>> {
    seq![
        "Designing"@,
        "Whiteboarding"@,
        "Presenting"@,
        "Building a Site"@,
        "Buzzing"@,
        "Making"@,
        "Dev Mode"@,
        "Working"@,
        "Idle"@,
    ]
}

/// The states that can be shown: the key of each and the words that the
/// settings window shows for it.
pub fn state_entries() -> (entries: Vec<(&'static str, &'static str)>)
    ensures
        entries@.len() == state_keys().len(),
        forall|i: int|
            0 <= i < entries@.len() ==> {
                &&& (#[trigger] entries@[i]).0@ == state_keys()[i]
                &&& entries@[i].1@ == state_labels()[i]
            },
{
    let mut entries: Vec<(&'static str, &'static str)> = Vec::new();
    entries.push(("design", "Designing"));
    entries.push(("whiteboard", "Whiteboarding"));
    entries.push(("slides", "Presenting"));
    entries.push(("sites", "Building a Site"));
    entries.push(("buzz", "Buzzing"));
    entries.push(("make", "Making"));
    entries.push(("dev_mode", "Dev Mode"));
    entries.push(("other", "Working"));
    entries.push(("idle", "Idle"));
    entries
}

/// Index of the first entry at or after `from` that is kept under `key`.
pub open spec fn override_index(
    entries: Seq<(String, ImageOverride)>,
    key: Seq<char>,
    from: int,
) -> Option<int>
    decreases entries.len() - from,
{
    if from < 0 || from >= entries.len() {
        None
    } else if entries[from].0@ == key {
        Some(from)
    } else {
        override_index(entries, key, from + 1)
    }
}

/// No key stands twice in `entries`.
pub open spec fn distinct_keys(entries: Seq<(String, ImageOverride)>) -> bool {
    forall|i: int, j: int|
        0 <= i < j < entries.len() ==> (#[trigger] entries[i]).0@ != (#[trigger] entries[j]).0@
}

/// The name under which the application is shown: a custom name that is
/// empty counts as none.
pub open spec fn resolved_name(name: AppName) -> Seq<char> {
    match name {
        AppName::Figma => "Figma"@,
        AppName::FigmaDesktop => "Figma Desktop"@,
        AppName::Custom(s) => if s@.len() == 0 {
            "Figma"@
        } else {
            s@
        },
    }
}

/// The image for a state: the user's own for that state where it is switched
/// on and not empty; else the default image; else the fallback.
pub open spec fn image_for(settings: Settings, state_key: Seq<char>) -> Seq<char> {
    let found = override_index(settings.image_overrides@, state_key, 0);
    if found is Some && settings.image_overrides@[found.unwrap()].1.enabled
        && settings.image_overrides@[found.unwrap()].1.image_url@.len() > 0 {
        settings.image_overrides@[found.unwrap()].1.image_url@
    } else if settings.default_image@.len() == 0 {
        FALLBACK_IMAGE@
    } else {
        settings.default_image@
    }
}

impl Default for Settings {
    /// No image of the user's own, every state listed and switched off.
    fn default() -> (settings: Settings)
        ensures
            distinct_keys(settings.image_overrides@),
            settings.default_image@ == Seq::<char>::empty(),
            !settings.hide_filename,
            !settings.disable_idle,
            settings.app_name is Figma,
            settings.image_overrides@.len() == state_keys().len(),
            forall|i: int|
                0 <= i < state_keys().len() ==> {
                    &&& (#[trigger] settings.image_overrides@[i]).0@ == state_keys()[i]
                    &&& !settings.image_overrides@[i].1.enabled
                    &&& settings.image_overrides@[i].1.image_url@ == Seq::<char>::empty()
                },
    {
        let entries = state_entries();
        let mut overrides: Vec<(String, ImageOverride)> = Vec::new();
        let mut i: usize = 0;
        while i < entries.len()
            invariant
                i <= entries.len(),
                entries@.len() == state_keys().len(),
                forall|k: int|
                    0 <= k < entries@.len() ==> (#[trigger] entries@[k]).0@ == state_keys()[k],
                overrides@.len() == i,
                forall|k: int|
                    0 <= k < i ==> {
                        &&& (#[trigger] overrides@[k]).0@ == state_keys()[k]
                        &&& !overrides@[k].1.enabled
                        &&& overrides@[k].1.image_url@ == Seq::<char>::empty()
                    },
            decreases entries.len() - i,
        {
            overrides.push((String::from_str(entries[i].0), ImageOverride::default()));
            i += 1;
        }
        proof {
            lemma_state_keys_are_distinct();
        }
        Settings {
            default_image: String::new(),
            image_overrides: overrides,
            hide_filename: false,
            disable_idle: false,
            app_name: AppName::Figma,
        }
    }
}

impl Settings {
    /// The name under which the application is shown.
    pub fn resolved_app_name(&self) -> (name: &str)
        ensures
            name@ == resolved_name(self.app_name),
    {
        match &self.app_name {
            AppName::Figma => "Figma",
            AppName::FigmaDesktop => "Figma Desktop",
            AppName::Custom(s) => if s.as_str().is_empty() {
                "Figma"
            } else {
                s.as_str()
            },
        }
    }

    /// The image to show for the state with the key `state_key`.
    pub fn image_url_for_state<'a>(&'a self, state_key: &str) -> (url: &'a str)
        ensures
            url@ == image_for(*self, state_key@),
    {
        let key = String::from_str(state_key);
        let mut i: usize = 0;
        while i < self.image_overrides.len()
            invariant
                i <= self.image_overrides.len(),
                key@ == state_key@,
                override_index(self.image_overrides@, key@, 0) == override_index(
                    self.image_overrides@,
                    key@,
                    i as int,
                ),
            decreases self.image_overrides.len() - i,
        {
            if self.image_overrides[i].0 == key {
                let found = &self.image_overrides[i].1;
                if found.enabled && !found.image_url.as_str().is_empty() {
                    return found.image_url.as_str();
                }
                return self.general_image();
            }
            i += 1;
        }
        self.general_image()
    }

    /// The image for a state without one of the user's own.
    fn general_image(&self) -> (url: &str)
        ensures
            url@ == (if self.default_image@.len() == 0 {
                FALLBACK_IMAGE@
            } else {
                self.default_image@
            }),
    {
        if self.default_image.as_str().is_empty() {
            FALLBACK_IMAGE
        } else {
            self.default_image.as_str()
        }
    }

    /// Keeps `image` under `key`, in place of what was kept under it.
    pub fn set_override(&mut self, key: &str, image: ImageOverride)
        ensures
            final(self).default_image == old(self).default_image,
            final(self).hide_filename == old(self).hide_filename,
            final(self).disable_idle == old(self).disable_idle,
            final(self).app_name == old(self).app_name,
            match override_index(old(self).image_overrides@, key@, 0) {
                Some(at) => {
                    &&& 0 <= at < old(self).image_overrides@.len()
                    &&& final(self).image_overrides@.len() == old(self).image_overrides@.len()
                    &&& final(self).image_overrides@[at].0@ == key@
                    &&& final(self).image_overrides@[at].1 == image
                    &&& forall|j: int|
                        0 <= j < old(self).image_overrides@.len() && j != at
                            ==> final(self).image_overrides@[j] == old(self).image_overrides@[j]
                },
                None => {
                    &&& final(self).image_overrides@.len() == old(self).image_overrides@.len() + 1
                    &&& final(self).image_overrides@.last().0@ == key@
                    &&& final(self).image_overrides@.last().1 == image
                    &&& forall|j: int|
                        0 <= j < old(self).image_overrides@.len()
                            ==> final(self).image_overrides@[j] == old(self).image_overrides@[j]
                },
            },
            distinct_keys(old(self).image_overrides@) ==> distinct_keys(
                final(self).image_overrides@,
            ),
    {
        let name = String::from_str(key);
        let mut i: usize = 0;
        while i < self.image_overrides.len()
            invariant
                i <= self.image_overrides.len(),
                *self == *old(self),
                name@ == key@,
                override_index(self.image_overrides@, key@, 0) == override_index(
                    self.image_overrides@,
                    key@,
                    i as int,
                ),
                forall|j: int| 0 <= j < i ==> (#[trigger] self.image_overrides@[j]).0@ != key@,
            decreases self.image_overrides.len() - i,
        {
            if self.image_overrides[i].0 == name {
                self.image_overrides.set(i, (name, image));
                return ;
            }
            i += 1;
        }
        self.image_overrides.push((name, image));
    }
}

} // verus!
