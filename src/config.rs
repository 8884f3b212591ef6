use vstd::prelude::*;

use crate::i18n::Language;
use crate::text::str_eq;

verus! {

/// The settings of the application.
#[derive(Debug, Clone)]
pub struct AppConfig {
    pub show_time_in_tray: bool,
    /// Seconds between two scans for running tools.
    pub poll_interval_secs: u64,
    pub sound_enabled: bool,
    /// Whether a waiting tool's terminal is brought to the front.
    pub auto_bring_to_front: bool,
    pub sitting_reminder_enabled: bool,
    pub sitting_reminder_interval_minutes: u32,
    pub language: Language,
}

/// The settings that a new installation starts with.
pub open spec fn default_config() -> AppConfig {
    AppConfig {
        show_time_in_tray: true,
        poll_interval_secs: 5,
        sound_enabled: false,
        auto_bring_to_front: false,
        sitting_reminder_enabled: true,
        sitting_reminder_interval_minutes: 40,
        language: Language::Chinese,
    }
}

impl Default for AppConfig {
    fn default() -> (r: AppConfig)
        ensures
            r == default_config(),
    {
        AppConfig {
            show_time_in_tray: true,
            poll_interval_secs: 5,
            sound_enabled: false,
            auto_bring_to_front: false,
            sitting_reminder_enabled: true,
            sitting_reminder_interval_minutes: 40,
            language: Language::Chinese,
        }
    }
}

/// The settings as a store holds them, each absent where the store has no
/// value of the right type under its key.
#[derive(Debug, Clone)]
pub struct StoredSettings {
    pub show_time_in_tray: Option<bool>,
    pub poll_interval_secs: Option<u64>,
    pub sound_enabled: Option<bool>,
    pub auto_bring_to_front: Option<bool>,
    pub sitting_reminder_enabled: Option<bool>,
    pub sitting_reminder_interval_minutes: Option<u64>,
    pub language: Option<String>,
}

/// The name under which a language is stored.
pub open spec fn language_name(lang: Language) -> Seq<char> {
    match lang {
        Language::English => "English"@,
        Language::Chinese => "Chinese"@,
    }
}

/// The language that a stored name stands for: Chinese for its own name,
/// English for any other.
pub open spec fn language_named(name: Seq<char>) -> Language {
    if name == "Chinese"@ {
        Language::Chinese
    } else {
        Language::English
    }
}

impl Language {
    /// The name under which the language is stored.
    pub fn stored_name(&self) -> (r: &'static str)
        ensures
            r@ == language_name(*self),
    {
        match self {
            Language::English => "English",
            Language::Chinese => "Chinese",
        }
    }

    /// The language that a stored name stands for.
    pub fn from_stored_name(name: &str) -> (r: Language)
        ensures
            r == language_named(name@),
    {
        if str_eq(name, "Chinese") {
            Language::Chinese
        } else {
            Language::English
        }
    }
}

/// A stored count, at least one.
pub open spec fn at_least_one(v: u64) -> u64 {
    if v < 1 {
        1
    } else {
        v
    }
}

/// The settings after the values of a store are read over them: each value
/// that the store has replaces the current one, the poll interval and the
/// reminder interval are at least one, and the reminder interval keeps the
/// low 32 bits of the stored number.
pub open spec fn loaded(c: AppConfig, s: StoredSettings) -> AppConfig {
    AppConfig {
        show_time_in_tray: match s.show_time_in_tray {
            Some(v) => v,
            None => c.show_time_in_tray,
        },
        poll_interval_secs: match s.poll_interval_secs {
            Some(v) => at_least_one(v),
            None => c.poll_interval_secs,
        },
        sound_enabled: match s.sound_enabled {
            Some(v) => v,
            None => c.sound_enabled,
        },
        auto_bring_to_front: match s.auto_bring_to_front {
            Some(v) => v,
            None => c.auto_bring_to_front,
        },
        sitting_reminder_enabled: match s.sitting_reminder_enabled {
            Some(v) => v,
            None => c.sitting_reminder_enabled,
        },
        sitting_reminder_interval_minutes: match s.sitting_reminder_interval_minutes {
            Some(v) => (at_least_one(v) % 0x1_0000_0000) as u32,
            None => c.sitting_reminder_interval_minutes,
        },
        language: match s.language {
            Some(name) => language_named(name@),
            None => c.language,
        },
    }
}

/// The next reminder interval in the cycle 20, 30, 40, 50, 60 minutes; any
/// other value goes back to 20.
pub open spec fn next_interval(m: u32) -> u32 {
    if m == 20 {
        30
    } else if m == 30 {
        40
    } else if m == 40 {
        50
    } else if m == 50 {
        60
    } else {
        20
    }
}

/// The settings of the running application.
pub struct ConfigManager {
    config: AppConfig,
}

impl View for ConfigManager {
    type V = AppConfig;

    closed spec fn view(&self) -> AppConfig {
        self.config
    }
}

impl Default for ConfigManager {
    fn default() -> (r: ConfigManager)
        ensures
            r@ == default_config(),
    {
        ConfigManager::new()
    }
}

impl ConfigManager {
    /// The default settings.
    pub fn new() -> (r: ConfigManager)
        ensures
            r@ == default_config(),
    {
        ConfigManager { config: AppConfig::default() }
    }

    /// Reads the values of a store over the settings.
    pub fn load(&mut self, stored: &StoredSettings)
        ensures
            final(self)@ == loaded(old(self)@, *stored),
    {
        if let Some(v) = stored.show_time_in_tray {
            self.config.show_time_in_tray = v;
        }
        if let Some(v) = stored.poll_interval_secs {
            self.config.poll_interval_secs = if v < 1 {
                1
            } else {
                v
            };
        }
        if let Some(v) = stored.sound_enabled {
            self.config.sound_enabled = v;
        }
        if let Some(v) = stored.auto_bring_to_front {
            self.config.auto_bring_to_front = v;
        }
        if let Some(v) = stored.sitting_reminder_enabled {
            self.config.sitting_reminder_enabled = v;
        }
        if let Some(v) = stored.sitting_reminder_interval_minutes {
            let m: u64 = if v < 1 {
                1
            } else {
                v
            };
            self.config.sitting_reminder_interval_minutes = (m % 0x1_0000_0000) as u32;
        }
        if let Some(name) = &stored.language {
            self.config.language = Language::from_stored_name(name.as_str());
        }
    }

    /// The values to write to a store: every setting, the language by name.
    pub fn save(&self) -> (r: StoredSettings)
        ensures
            r.show_time_in_tray == Some(self@.show_time_in_tray),
            r.poll_interval_secs == Some(self@.poll_interval_secs),
            r.sound_enabled == Some(self@.sound_enabled),
            r.auto_bring_to_front == Some(self@.auto_bring_to_front),
            r.sitting_reminder_enabled == Some(self@.sitting_reminder_enabled),
            r.sitting_reminder_interval_minutes == Some(
                self@.sitting_reminder_interval_minutes as u64,
            ),
            r.language matches Some(name) && name@ == language_name(self@.language),
    {
        StoredSettings {
            show_time_in_tray: Some(self.config.show_time_in_tray),
            poll_interval_secs: Some(self.config.poll_interval_secs),
            sound_enabled: Some(self.config.sound_enabled),
            auto_bring_to_front: Some(self.config.auto_bring_to_front),
            sitting_reminder_enabled: Some(self.config.sitting_reminder_enabled),
            sitting_reminder_interval_minutes: Some(
                self.config.sitting_reminder_interval_minutes as u64,
            ),
            language: Some(String::from_str(self.config.language.stored_name())),
        }
    }

    /// A copy of the settings.
    pub fn get_config(&self) -> (r: AppConfig)
        ensures
            r == self@,
    {
        AppConfig { ..self.config }
    }

    pub fn get_show_time(&self) -> (r: bool)
        ensures
            r == self@.show_time_in_tray,
    {
        self.config.show_time_in_tray
    }

    pub fn set_show_time(&mut self, show: bool)
        ensures
            final(self)@ == (AppConfig { show_time_in_tray: show, ..old(self)@ }),
    {
        self.config.show_time_in_tray = show;
    }

    /// Flips whether the time shows in the tray, and returns the new value.
    pub fn toggle_show_time(&mut self) -> (r: bool)
        ensures
            r == !old(self)@.show_time_in_tray,
            final(self)@ == (AppConfig { show_time_in_tray: r, ..old(self)@ }),
    {
        self.config.show_time_in_tray = !self.config.show_time_in_tray;
        self.config.show_time_in_tray
    }

    pub fn get_poll_interval(&self) -> (r: u64)
        ensures
            r == self@.poll_interval_secs,
    {
        self.config.poll_interval_secs
    }

    /// Sets the poll interval, at least one second.
    pub fn set_poll_interval(&mut self, secs: u64)
        ensures
            final(self)@ == (AppConfig { poll_interval_secs: at_least_one(secs), ..old(self)@ }),
    {
        self.config.poll_interval_secs = if secs < 1 {
            1
        } else {
            secs
        };
    }

    pub fn get_sound_enabled(&self) -> (r: bool)
        ensures
            r == self@.sound_enabled,
    {
        self.config.sound_enabled
    }

    /// Flips the sound of notifications, and returns the new value.
    pub fn toggle_sound(&mut self) -> (r: bool)
        ensures
            r == !old(self)@.sound_enabled,
            final(self)@ == (AppConfig { sound_enabled: r, ..old(self)@ }),
    {
        self.config.sound_enabled = !self.config.sound_enabled;
        self.config.sound_enabled
    }

    pub fn get_auto_bring_to_front(&self) -> (r: bool)
        ensures
            r == self@.auto_bring_to_front,
    {
        self.config.auto_bring_to_front
    }

    /// Flips whether a waiting tool is brought to the front, and returns the
    /// new value.
    pub fn toggle_auto_bring_to_front(&mut self) -> (r: bool)
        ensures
            r == !old(self)@.auto_bring_to_front,
            final(self)@ == (AppConfig { auto_bring_to_front: r, ..old(self)@ }),
    {
        self.config.auto_bring_to_front = !self.config.auto_bring_to_front;
        self.config.auto_bring_to_front
    }

    pub fn get_sitting_reminder_enabled(&self) -> (r: bool)
        ensures
            r == self@.sitting_reminder_enabled,
    {
        self.config.sitting_reminder_enabled
    }

    /// Flips the sitting reminder, and returns the new value.
    pub fn toggle_sitting_reminder(&mut self) -> (r: bool)
        ensures
            r == !old(self)@.sitting_reminder_enabled,
            final(self)@ == (AppConfig { sitting_reminder_enabled: r, ..old(self)@ }),
    {
        self.config.sitting_reminder_enabled = !self.config.sitting_reminder_enabled;
        self.config.sitting_reminder_enabled
    }

    pub fn get_sitting_reminder_interval(&self) -> (r: u32)
        ensures
            r == self@.sitting_reminder_interval_minutes,
    {
        self.config.sitting_reminder_interval_minutes
    }

    /// Moves the reminder interval to the next in its cycle, and returns it.
    pub fn cycle_sitting_reminder_interval(&mut self) -> (r: u32)
        ensures
            r == next_interval(old(self)@.sitting_reminder_interval_minutes),
            final(self)@ == (AppConfig { sitting_reminder_interval_minutes: r, ..old(self)@ }),
    {
        self.config.sitting_reminder_interval_minutes =
        match self.config.sitting_reminder_interval_minutes {
            20 => 30,
            30 => 40,
            40 => 50,
            50 => 60,
            _ => 20,
        };
        self.config.sitting_reminder_interval_minutes
    }

    pub fn get_language(&self) -> (r: Language)
        ensures
            r == self@.language,
    {
        self.config.language
    }

    /// Switches to the other language, and returns it.
    pub fn toggle_language(&mut self) -> (r: Language)
        ensures
            r != old(self)@.language,
            final(self)@ == (AppConfig { language: r, ..old(self)@ }),
    {
        self.config.language = self.config.language.toggle();
        self.config.language
    }
}

} // verus!
