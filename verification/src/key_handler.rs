//! Virtual-key classification.
//!
//! Decides which keys the input method reacts to: romanization letters,
//! the control keys that drive an open composition, and the navigation
//! keys that force an auto-commit.

use vstd::prelude::*;

verus! {

pub const VK_BACK: u32 = 0x08;

pub const VK_TAB: u32 = 0x09;

pub const VK_RETURN: u32 = 0x0D;

pub const VK_SHIFT: u32 = 0x10;

pub const VK_CONTROL: u32 = 0x11;

pub const VK_MENU: u32 = 0x12;

pub const VK_ESCAPE: u32 = 0x1B;

pub const VK_SPACE: u32 = 0x20;

pub const VK_END: u32 = 0x23;

pub const VK_HOME: u32 = 0x24;

pub const VK_LEFT: u32 = 0x25;

pub const VK_UP: u32 = 0x26;

pub const VK_RIGHT: u32 = 0x27;

pub const VK_DOWN: u32 = 0x28;

pub const VK_DELETE: u32 = 0x2E;

/// The letter keys `A`..`Z` are the romanization input keys.
pub open spec fn spec_vk_to_char(vk: u32) -> Option<char> {
    if 0x41 <= vk <= 0x5A {
        Some((((vk - 0x41) + 0x61) as u8) as char)
    } else {
        None
    }
}

/// Lowercase letter entered by an alphabetic virtual key, if any.
pub fn vk_to_char(vk: u32) -> (r: Option<char>)
    ensures
        r == spec_vk_to_char(vk),
{
    if 0x41 <= vk && vk <= 0x5A {
        Some((((vk - 0x41) + 0x61) as u8) as char)
    } else {
        None
    }
}

/// True exactly for the letter keys that feed the romanization buffer.
pub fn is_hangul_key(vk: u32) -> (r: bool)
    ensures
        r == (spec_vk_to_char(vk) is Some),
{
    vk_to_char(vk).is_some()
}

/// Control keys that an open composition consumes: Backspace, Enter,
/// Space and Escape.
pub open spec fn spec_is_control_key(vk: u32) -> bool {
    vk == VK_BACK || vk == VK_RETURN || vk == VK_SPACE || vk == VK_ESCAPE
}

/// True for the keys that drive an open composition directly.
pub fn is_control_key(vk: u32) -> (r: bool)
    ensures
        r == spec_is_control_key(vk),
{
    vk == VK_BACK || vk == VK_RETURN || vk == VK_SPACE || vk == VK_ESCAPE
}

/// Navigation keys: Tab, the arrows, Home, End and Delete.  While a
/// composition is open they auto-commit it and pass through.
pub open spec fn spec_is_navigation_key(vk: u32) -> bool {
    vk == VK_TAB || vk == VK_LEFT || vk == VK_RIGHT || vk == VK_UP || vk == VK_DOWN || vk
        == VK_HOME || vk == VK_END || vk == VK_DELETE
}

/// True for the keys that auto-commit an open composition and pass through.
pub fn is_navigation_key(vk: u32) -> (r: bool)
    ensures
        r == spec_is_navigation_key(vk),
{
    vk == VK_TAB || vk == VK_LEFT || vk == VK_RIGHT || vk == VK_UP || vk == VK_DOWN || vk
        == VK_HOME || vk == VK_END || vk == VK_DELETE
}

} // verus!
