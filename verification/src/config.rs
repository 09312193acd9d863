//! Input-method settings.
//!
//! The settings carry the toggle key (one key plus three modifier
//! switches) and the language profiles to register.  Reading and
//! parsing the settings file happens in the surrounding program; the
//! library receives the parsed values and applies the fallback rules:
//! an unknown key name degrades to the default settings.

use vstd::prelude::*;
use vstd::string::StrSliceExecFns;

verus! {

/// Toggle key: a virtual key plus the exact modifier state that must
/// accompany it.
#[derive(Clone, Copy)]
pub struct ToggleKey {
    pub vk: u32,
    pub shift: bool,
    pub ctrl: bool,
    pub alt: bool,
}

/// Which language keyboard profiles to register.
#[derive(Clone, Copy)]
pub struct Languages {
    pub japanese: bool,
    pub korean: bool,
}

/// Input-method settings.
#[derive(Clone, Copy)]
pub struct Config {
    pub toggle_key: ToggleKey,
    pub languages: Languages,
}

/// The default settings: Shift+Space toggles, the Japanese profile is
/// registered and the Korean one is not.
pub open spec fn default_config() -> Config {
    Config {
        toggle_key: ToggleKey { vk: 0x20, shift: true, ctrl: false, alt: false },
        languages: Languages { japanese: true, korean: false },
    }
}

/// Virtual key for a configuration key name: a single character `A`..`Z`
/// or `0`..`9` maps to its code, `"Space"` to 0x20, everything else to
/// nothing.
pub open spec fn spec_key_name_to_vk(name: Seq<char>) -> Option<u32> {
    if name.len() == 1 && (('A' <= name[0] && name[0] <= 'Z') || ('0' <= name[0] && name[0]
        <= '9')) {
        Some(name[0] as u32)
    } else if name == "Space"@ {
        Some(0x20u32)
    } else {
        None
    }
}

/// Translates a settings-file key name to a virtual key code.
pub fn key_name_to_vk(name: &str) -> (r: Option<u32>)
    ensures
        r == spec_key_name_to_vk(name@),
{
    let n = name.unicode_len();
    if n == 1 {
        let c = name.get_char(0);
        if ('A' <= c && c <= 'Z') || ('0' <= c && c <= '9') {
            return Some(c as u32);
        }
    }
    let owned = name.to_owned();
    let space: String = "Space".to_owned();
    if owned == space {
        Some(0x20)
    } else {
        None
    }
}

impl Config {
    /// The default settings (Shift+Space, Japanese on, Korean off).
    pub fn default() -> (r: Self)
        ensures
            r == default_config(),
    {
        Config {
            toggle_key: ToggleKey { vk: 0x20, shift: true, ctrl: false, alt: false },
            languages: Languages { japanese: true, korean: false },
        }
    }

    /// Settings from the values of a parsed settings file.  An unknown
    /// key name makes the whole configuration fall back to the default,
    /// as a malformed file would.
    pub fn from_settings(
        key_name: &str,
        shift: bool,
        ctrl: bool,
        alt: bool,
        japanese: bool,
        korean: bool,
    ) -> (r: Self)
        ensures
            match spec_key_name_to_vk(key_name@) {
                Some(vk) => r == (Config {
                    toggle_key: ToggleKey { vk, shift, ctrl, alt },
                    languages: Languages { japanese, korean },
                }),
                None => r == default_config(),
            },
    {
        match key_name_to_vk(key_name) {
            Some(vk) => Config {
                toggle_key: ToggleKey { vk, shift, ctrl, alt },
                languages: Languages { japanese, korean },
            },
            None => Config::default(),
        }
    }
}

} // verus!
