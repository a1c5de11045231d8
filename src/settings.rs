//! Per-device recording settings: one switch and one description for each
//! kind of activity.

use vstd::prelude::*;
use crate::files::{chars_of, equals};

verus! {

/// One recording switch and the text that explains it.
#[derive(Clone, Debug)]
pub struct SettingItem {
    pub enabled: bool,
    pub description: String,
}

impl Default for SettingItem {
    fn default() -> (r: SettingItem)
        ensures
            !r.enabled,
            r.description@.len() == 0,
    {
        SettingItem { enabled: false, description: String::new() }
    }
}

/// The settings of one device.
#[derive(Clone, Debug)]
pub struct Settings {
    pub files_and_folders: SettingItem,
    pub screen: SettingItem,
    pub session: SettingItem,
    pub processes: SettingItem,
    pub keyboard: SettingItem,
    pub mouse: SettingItem,
    pub camera: SettingItem,
    pub mic: SettingItem,
}

/// The default description of the `files_and_folders` setting.
pub open spec fn default_files_and_folders_text() -> Seq<char> {
    "Records screen activity and learns what you do based on your screen activity."@
}

/// The default description of the `screen` setting.
pub open spec fn default_screen_text() -> Seq<char> {
    "Records screen activity and learns what you do based on your screen activity."@
}

/// The default description of the `session` setting.
pub open spec fn default_session_text() -> Seq<char> {
    "Captures what apps and sites you have open in any session. Learns how your sessions evolve over time."@
}

/// The default description of the `processes` setting.
pub open spec fn default_processes_text() -> Seq<char> {
    "Captures what background processes are running to determine what functionality you rely on while you compute."@
}

/// The default description of the `keyboard` setting.
pub open spec fn default_keyboard_text() -> Seq<char> {
    "Learns your typing patterns and keyboard shortcuts to better learn how you communicate and what functionality you rely on."@
}

/// The default description of the `mouse` setting.
pub open spec fn default_mouse_text() -> Seq<char> {
    "Captures your mouse movements and clicks to learn how you interact with your computer."@
}

/// The default description of the `camera` setting.
pub open spec fn default_camera_text() -> Seq<char> {
    "Sees how you react while using your devices to determine what events trigger what emotions and behaviors."@
}

/// The default description of the `mic` setting.
pub open spec fn default_mic_text() -> Seq<char> {
    "Listens to you while you're on calls and comments you might have while using your device in order to better understand you."@
}

impl Default for Settings {
    /// Every recording switch off, each with its standard description.
    fn default() -> (r: Settings)
        ensures
            !r.files_and_folders.enabled,
            r.files_and_folders.description@ == default_files_and_folders_text(),
            !r.screen.enabled,
            r.screen.description@ == default_screen_text(),
            !r.session.enabled,
            r.session.description@ == default_session_text(),
            !r.processes.enabled,
            r.processes.description@ == default_processes_text(),
            !r.keyboard.enabled,
            r.keyboard.description@ == default_keyboard_text(),
            !r.mouse.enabled,
            r.mouse.description@ == default_mouse_text(),
            !r.camera.enabled,
            r.camera.description@ == default_camera_text(),
            !r.mic.enabled,
            r.mic.description@ == default_mic_text(),
    {
        Settings {
            files_and_folders: SettingItem {
                enabled: false,
                description: String::from_str(
                    "Records screen activity and learns what you do based on your screen activity.",
                ),
            },
            screen: SettingItem {
                enabled: false,
                description: String::from_str(
                    "Records screen activity and learns what you do based on your screen activity.",
                ),
            },
            session: SettingItem {
                enabled: false,
                description: String::from_str(
                    "Captures what apps and sites you have open in any session. Learns how your sessions evolve over time.",
                ),
            },
            processes: SettingItem {
                enabled: false,
                description: String::from_str(
                    "Captures what background processes are running to determine what functionality you rely on while you compute.",
                ),
            },
            keyboard: SettingItem {
                enabled: false,
                description: String::from_str(
                    "Learns your typing patterns and keyboard shortcuts to better learn how you communicate and what functionality you rely on.",
                ),
            },
            mouse: SettingItem {
                enabled: false,
                description: String::from_str(
                    "Captures your mouse movements and clicks to learn how you interact with your computer.",
                ),
            },
            camera: SettingItem {
                enabled: false,
                description: String::from_str(
                    "Sees how you react while using your devices to determine what events trigger what emotions and behaviors.",
                ),
            },
            mic: SettingItem {
                enabled: false,
                description: String::from_str(
                    "Listens to you while you're on calls and comments you might have while using your device in order to better understand you.",
                ),
            },
        }
    }
}

/// The position, in the order of the fields of `Settings`, of the setting
/// that `key` names, if it names one.
pub open spec fn key_index(key: Seq<char>) -> Option<int> {
    if key == "files_and_folders"@ {
        Some(0int)
    } else if key == "screen"@ {
        Some(1int)
    } else if key == "session"@ {
        Some(2int)
    } else if key == "processes"@ {
        Some(3int)
    } else if key == "keyboard"@ {
        Some(4int)
    } else if key == "mouse"@ {
        Some(5int)
    } else if key == "camera"@ {
        Some(6int)
    } else if key == "mic"@ {
        Some(7int)
    } else {
        None
    }
}

/// The item of `s` at index `i` in the order of the fields.
pub open spec fn item_at(s: Settings, i: int) -> SettingItem {
    if i == 0 {
        s.files_and_folders
    } else if i == 1 {
        s.screen
    } else if i == 2 {
        s.session
    } else if i == 3 {
        s.processes
    } else if i == 4 {
        s.keyboard
    } else if i == 5 {
        s.mouse
    } else if i == 6 {
        s.camera
    } else {
        s.mic
    }
}

/// The default description of the setting at position `i`, in the order of
/// the fields of `Settings`.
pub open spec fn default_text_at(i: int) -> Seq<char> {
    if i == 0 {
        default_files_and_folders_text()
    } else if i == 1 {
        default_screen_text()
    } else if i == 2 {
        default_session_text()
    } else if i == 3 {
        default_processes_text()
    } else if i == 4 {
        default_keyboard_text()
    } else if i == 5 {
        default_mouse_text()
    } else if i == 6 {
        default_camera_text()
    } else {
        default_mic_text()
    }
}

/// One entry of a stored settings object: its key, and each of its two
/// fields if it was present.
#[derive(Clone, Debug)]
pub struct SettingEntry {
    pub key: String,
    pub enabled: Option<bool>,
    pub description: Option<String>,
}

/// The switch an entry sets: off when the entry gives none.
pub open spec fn entry_enabled(e: SettingEntry) -> bool {
    match e.enabled {
        Some(b) => b,
        None => false,
    }
}

/// The description an entry sets: empty when the entry gives none.
pub open spec fn entry_text(e: SettingEntry) -> Seq<char> {
    match e.description {
        Some(d) => d@,
        None => Seq::empty(),
    }
}

/// The position of the last entry that names the setting at position `i`.
pub open spec fn last_entry_for(entries: Seq<SettingEntry>, i: int) -> Option<int>
    decreases entries.len(),
{
    if entries.len() == 0 {
        None
    } else if key_index(entries.last().key@) == Some(i) {
        Some(entries.len() - 1)
    } else {
        last_entry_for(entries.drop_last(), i)
    }
}

/// The last entry for a setting is one of the entries.
proof fn lemma_last_entry_in_bounds(entries: Seq<SettingEntry>, i: int)
    ensures
        last_entry_for(entries, i) matches Some(j) ==> 0 <= j < entries.len(),
    decreases entries.len(),
{
    if entries.len() > 0 {
        lemma_last_entry_in_bounds(entries.drop_last(), i);
    }
}

/// The setting at position `i` of `s` is what merging `entries` into the
/// defaults gives: the last entry for it wins, and with no entry it keeps
/// its default.
pub open spec fn merged_item(s: Settings, entries: Seq<SettingEntry>, i: int) -> bool {
    match last_entry_for(entries, i) {
        Some(j) => {
            &&& item_at(s, i).enabled == entry_enabled(entries[j])
            &&& item_at(s, i).description@ == entry_text(entries[j])
        },
        None => {
            &&& !item_at(s, i).enabled
            &&& item_at(s, i).description@ == default_text_at(i)
        },
    }
}

impl Settings {
    /// Replaces the setting that `key` names with `item` and returns `true`;
    /// an unknown key changes nothing and returns `false`.
    pub fn apply(&mut self, key: &str, item: SettingItem) -> (r: bool)
        ensures
            r == (key_index(key@) is Some),
            forall|i: int|
                0 <= i < 8 ==> #[trigger] item_at(*final(self), i) == if key_index(key@) == Some(i) {
                    item
                } else {
                    item_at(*old(self), i)
                },
    {
        let k = chars_of(key);
        if equals(&k, "files_and_folders") {
            self.files_and_folders = item;
            true
        } else if equals(&k, "screen") {
            self.screen = item;
            true
        } else if equals(&k, "session") {
            self.session = item;
            true
        } else if equals(&k, "processes") {
            self.processes = item;
            true
        } else if equals(&k, "keyboard") {
            self.keyboard = item;
            true
        } else if equals(&k, "mouse") {
            self.mouse = item;
            true
        } else if equals(&k, "camera") {
            self.camera = item;
            true
        } else if equals(&k, "mic") {
            self.mic = item;
            true
        } else {
            false
        }
    }

    /// The defaults, with the entries of a stored settings object applied in
    /// order. Entries whose key names no setting are ignored.
    pub fn merged(entries: &Vec<SettingEntry>) -> (r: Settings)
        ensures
            forall|i: int| 0 <= i < 8 ==> #[trigger] merged_item(r, entries@, i),
    {
        let mut s = Settings::default();
        let mut k: usize = 0;
        assert(entries@.take(0) =~= Seq::<SettingEntry>::empty());
        while k < entries.len()
            invariant
                0 <= k <= entries.len(),
                forall|i: int| 0 <= i < 8 ==> #[trigger] merged_item(s, entries@.take(k as int), i),
            decreases entries.len() - k,
        {
            let e = &entries[k];
            let enabled = match e.enabled {
                Some(b) => b,
                None => false,
            };
            let description = match &e.description {
                Some(d) => d.clone(),
                None => String::new(),
            };
            let ghost before = s;
            let item = SettingItem { enabled, description };
            let ghost given = item;
            assert(given.enabled == entry_enabled(entries@[k as int]));
            assert(given.description@ == entry_text(entries@[k as int]));
            s.apply(e.key.as_str(), item);
            proof {
                let prev = entries@.take(k as int);
                let next = entries@.take(k + 1);
                assert(next.drop_last() =~= prev);
                assert(next.last() == entries@[k as int]);
                assert forall|i: int| 0 <= i < 8 implies #[trigger] merged_item(s, next, i) by {
                    assert(merged_item(before, prev, i));
                    if key_index(entries@[k as int].key@) == Some(i) {
                        assert(last_entry_for(next, i) == Some(k as int));
                        assert(item_at(s, i) == given);
                    } else {
                        assert(last_entry_for(next, i) == last_entry_for(prev, i));
                        lemma_last_entry_in_bounds(prev, i);
                        if let Some(j) = last_entry_for(prev, i) {
                            assert(next[j] == prev[j]);
                        }
                        assert(item_at(s, i) == item_at(before, i));
                    }
                }
            }
            k = k + 1;
        }
        assert(entries@.take(k as int) =~= entries@);
        s
    }
}

} // verus!
