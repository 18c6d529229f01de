use vstd::prelude::*;
use vstd::string::*;

verus! {

/// User preferences: colour theme, completion sound, system notification, start with the system.
#[derive(Debug, Clone, PartialEq)]
pub struct Settings {
    pub theme: String,
    pub sound: bool,
    pub notification: bool,
    pub autostart: bool,
}

/// The themes the interface knows.
pub open spec fn valid_theme(theme: Seq<char>) -> bool {
    theme == "system"@ || theme == "dark"@ || theme == "light"@
}

impl Settings {
    /// The defaults: follow the system theme, sound and notification on, no autostart.
    pub open spec fn is_default(self) -> bool {
        &&& self.theme@ == "system"@
        &&& self.sound
        &&& self.notification
        &&& !self.autostart
    }

    /// `self` with an unknown theme replaced by "system" and everything else kept.
    pub open spec fn sanitized_from(self, raw: Settings) -> bool {
        &&& self.theme@ == (if valid_theme(raw.theme@) { raw.theme@ } else { "system"@ })
        &&& self.sound == raw.sound
        &&& self.notification == raw.notification
        &&& self.autostart == raw.autostart
    }
}

impl Default for Settings {
    fn default() -> (s: Self)
        ensures
            s.is_default(),
    {
        Settings { theme: String::from_str("system"), sound: true, notification: true, autostart: false }
    }
}

/// Whether `theme` is one of "system", "dark" or "light".
pub fn is_known_theme(theme: &String) -> (b: bool)
    ensures
        b == valid_theme(theme@),
{
    let system = String::from_str("system");
    let dark = String::from_str("dark");
    let light = String::from_str("light");
    *theme == system || *theme == dark || *theme == light
}

/// The settings as they are saved: an unknown theme falls back to "system".
pub fn sanitize_settings(s: &Settings) -> (r: Settings)
    ensures
        r.sanitized_from(*s),
        valid_theme(r.theme@),
        r.sound == s.sound,
        r.notification == s.notification,
        r.autostart == s.autostart,
        valid_theme(s.theme@) ==> r.theme@ == s.theme@,
        !valid_theme(s.theme@) ==> r.theme@ == "system"@,
{
    let theme = if is_known_theme(&s.theme) { s.theme.clone() } else { String::from_str("system") };
    Settings { theme, sound: s.sound, notification: s.notification, autostart: s.autostart }
}

/// The settings as they are read back: stored settings that could be read as such are
/// used, anything else (nothing stored, or unreadable text) gives the defaults.
pub fn settings_or_default(stored: Option<Settings>) -> (r: Settings)
    ensures
        match stored {
            Some(s) => r == s,
            None => r.is_default(),
        },
{
    match stored {
        Some(s) => s,
        None => Settings::default(),
    }
}

/// Saving sanitised settings changes nothing more: sanitising is idempotent, and
/// settings whose theme is already known are saved as they are.
pub proof fn lemma_sanitize_idempotent(raw: Settings, once: Settings, twice: Settings)
    requires
        once.sanitized_from(raw),
        twice.sanitized_from(once),
    ensures
        twice.theme@ == once.theme@,
        twice.sound == once.sound,
        twice.notification == once.notification,
        twice.autostart == once.autostart,
        valid_theme(raw.theme@) ==> once.theme@ == raw.theme@,
{
    reveal_strlit("system");
    reveal_strlit("dark");
    reveal_strlit("light");
}

/// Sanitising changes nothing but an unknown theme: the sound, notification and
/// autostart switches are kept each exactly as given, independently of one another, and a
/// known theme is kept.
pub proof fn lemma_sanitize_keeps_switches(raw: Settings, saved: Settings)
    requires
        saved.sanitized_from(raw),
    ensures
        saved.sound == raw.sound,
        saved.notification == raw.notification,
        saved.autostart == raw.autostart,
        valid_theme(saved.theme@),
        valid_theme(raw.theme@) ==> saved.theme@ == raw.theme@,
{
    reveal_strlit("system");
}

/// The defaults survive sanitising unchanged.
pub proof fn lemma_default_is_sanitized(d: Settings, saved: Settings)
    requires
        d.is_default(),
        saved.sanitized_from(d),
    ensures
        saved.is_default(),
{
}

} // verus!
