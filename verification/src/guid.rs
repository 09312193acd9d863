//! Identity of the text service.
//!
//! The class and profile identifiers the module is registered under,
//! as plain 128-bit values; the surrounding program turns them into
//! the host's GUID type where registration needs it.

use vstd::prelude::*;

verus! {

/// Class identifier of the text service object.
pub const CLSID_CHAMSAE_TEXT_SERVICE: u128 = 0xD4A5B8E1_7C2F_4A3D_9E6B_1F8C0D2A5E7B;

/// Identifier of the language profile.
pub const GUID_CHAMSAE_PROFILE: u128 = 0xA2C4E6F8_1B3D_5A7C_9E0F_2D4B6A8C0E1F;

/// The class identifier in registry string form.
pub const CLSID_CHAMSAE_TEXT_SERVICE_STR: &'static str = "{D4A5B8E1-7C2F-4A3D-9E6B-1F8C0D2A5E7B}";

/// Display name of the input method.
pub const IME_DISPLAY_NAME: &'static str = "Chamsae Hangul IME";

/// Description of the input method.
pub const IME_DESCRIPTION: &'static str = "Chamsae - Romanji to Hangul Input Method Editor";

/// Language identifier for Korean.
pub const LANGID_KOREAN: u16 = 0x0412;

} // verus!
