//! The composition state machine.
//!
//! It owns the pending romanized buffer and the enabled flag, and
//! decides for every key event whether the key is consumed and what
//! the composition host should do: begin or update the shown text,
//! commit it, or cancel it.  The surrounding program delivers key
//! events with the modifier state it observed and carries the returned
//! action to the host; nothing here blocks or talks to the host
//! directly.

use crate::config::{Config, ToggleKey};
use crate::edit_session::{encode_utf16_units, utf16_of, EditAction};
use crate::hangul::{chars_to_string, convert_seq, lemma_ascii_lower_id, HangulConverter};
use crate::key_handler;
use crate::tray_icon::TrayAction;
use crate::user_dict::{spec_lookup, UserDict};
use vstd::prelude::*;

verus! {

/// Characters the romanized buffer can hold: the lowercase letters the
/// letter keys produce, and the space separator.
pub open spec fn buffer_char(c: char) -> bool {
    ('a' <= c && c <= 'z') || c == ' '
}

/// The toggle fires when the key and the exact modifier state match
/// the configured combination.
pub open spec fn spec_is_toggle_key(
    tk: ToggleKey,
    vk: u32,
    shift: bool,
    ctrl: bool,
    alt: bool,
) -> bool {
    vk == tk.vk && shift == tk.shift && ctrl == tk.ctrl && alt == tk.alt
}

/// The text shown for a buffer: the user override when one matches the
/// whole buffer exactly, otherwise the engine's conversion.
pub open spec fn composed_spec(dict: Seq<(Seq<char>, Seq<char>)>, buf: Seq<char>) -> Seq<char> {
    match spec_lookup(dict, buf) {
        Some(v) => v,
        None => convert_seq(buf),
    }
}

/// Whether an action updates the composition with exactly this UTF-16
/// text.
pub open spec fn action_is_update(a: Option<EditAction>, t: Seq<u16>) -> bool {
    match a {
        Some(EditAction::Update(v)) => v@ == t,
        _ => false,
    }
}

/// What one key event came to: whether the key is consumed, and what
/// the composition host should do.
pub struct KeyOutcome {
    pub consumed: bool,
    pub action: Option<EditAction>,
}

/// The composition state machine.
///
/// A composition session exists exactly while the buffer is non-empty:
/// Idle and Composing are `buffer_view().len() == 0` and `> 0`.  The
/// enabled flag is orthogonal session state flipped by the toggle key.
pub struct TextService {
    converter: HangulConverter,
    config: Config,
    user_dict: UserDict,
    buffer: Vec<char>,
    enabled: bool,
}

impl TextService {
    /// The pending romanized input.
    pub closed spec fn buffer_view(&self) -> Seq<char> {
        self.buffer@
    }

    /// Whether the input method reacts to keys at all.
    pub closed spec fn spec_enabled(&self) -> bool {
        self.enabled
    }

    /// The active settings.
    pub closed spec fn spec_config(&self) -> Config {
        self.config
    }

    /// The active override dictionary.
    pub closed spec fn dict_view(&self) -> Seq<(Seq<char>, Seq<char>)> {
        self.user_dict@
    }

    /// The buffer only ever holds letters and spaces.
    pub open spec fn wf(&self) -> bool {
        forall|i: int|
            0 <= i < self.buffer_view().len() ==> buffer_char(#[trigger] self.buffer_view()[i])
    }

    /// A fresh, enabled state machine with an empty buffer.
    pub fn new(config: Config, user_dict: UserDict) -> (r: Self)
        ensures
            r.wf(),
            r.buffer_view().len() == 0,
            r.spec_enabled(),
            r.spec_config() == config,
            r.dict_view() == user_dict@,
    {
        TextService {
            converter: HangulConverter::new(),
            config,
            user_dict,
            buffer: Vec::new(),
            enabled: true,
        }
    }

    /// Whether this event is the configured toggle combination.
    pub fn is_toggle_key(&self, vk: u32, shift: bool, ctrl: bool, alt: bool) -> (r: bool)
        ensures
            r == spec_is_toggle_key(self.spec_config().toggle_key, vk, shift, ctrl, alt),
    {
        let tk = &self.config.toggle_key;
        vk == tk.vk && shift == tk.shift && ctrl == tk.ctrl && alt == tk.alt
    }

    /// The text currently shown for the buffer: the user override if
    /// one matches, otherwise the engine's conversion.
    pub fn composed_text(&self) -> (r: String)
        requires
            self.wf(),
        ensures
            r@ == composed_spec(self.dict_view(), self.buffer_view()),
    {
        let buf_str = chars_to_string(&self.buffer);
        match self.user_dict.lookup(buf_str.as_str()) {
            Some(v) => v,
            None => {
                proof {
                    assert forall|i: int|
                        0 <= i < buf_str@.len() implies '\0' <= #[trigger] buf_str@[i]
                        <= '\u{7f}' by {
                        assert(buffer_char(self.buffer_view()[i]));
                    }
                    assert forall|i: int|
                        0 <= i < buf_str@.len() implies !('A' <= #[trigger] buf_str@[i]
                        && buf_str@[i] <= 'Z') by {
                        assert(buffer_char(self.buffer_view()[i]));
                    }
                    assert(vstd::utf8::is_ascii_chars(buf_str@));
                    lemma_ascii_lower_id(buf_str@);
                }
                self.converter.convert(buf_str.as_str())
            },
        }
    }

    /// The action that shows the current buffer's text.
    fn update_action(&self) -> (r: EditAction)
        requires
            self.wf(),
        ensures
            action_is_update(
                Some(r),
                utf16_of(composed_spec(self.dict_view(), self.buffer_view())),
            ),
    {
        let text = self.composed_text();
        EditAction::Update(encode_utf16_units(text.as_str()))
    }

    /// Would this key event be consumed?  Same decision as
    /// [`TextService::on_key_down`], with nothing changed.
    pub fn on_test_key_down(&self, vk: u32, shift: bool, ctrl: bool, alt: bool) -> (r: bool)
        ensures
            r == spec_on_test_key_down(
                self.spec_config().toggle_key,
                self.spec_enabled(),
                self.buffer_view().len(),
                vk,
                shift,
                ctrl,
                alt,
            ),
    {
        if self.is_toggle_key(vk, shift, ctrl, alt) {
            return true;
        }
        if !self.enabled {
            return false;
        }
        if ctrl || alt {
            return !self.buffer.is_empty();
        }
        if key_handler::is_hangul_key(vk) {
            return true;
        }
        if key_handler::is_control_key(vk) && !self.buffer.is_empty() {
            return true;
        }
        !self.buffer.is_empty()
    }

    /// Reacts to one key-down event.
    ///
    /// Letter keys extend the buffer and update the shown text; while
    /// a composition is open, Backspace shortens it (to a cancel when
    /// it empties), Enter commits, Escape cancels, Space separates
    /// syllables, and every other key auto-commits and passes through.
    /// The toggle combination always wins and flips the enabled flag;
    /// with the input method disabled everything passes through; with
    /// Ctrl or Alt held the letter handling is suppressed.
    pub fn on_key_down(&mut self, vk: u32, shift: bool, ctrl: bool, alt: bool) -> (r: KeyOutcome)
        requires
            old(self).wf(),
        ensures
            final(self).wf(),
            final(self).spec_config() == old(self).spec_config(),
            final(self).dict_view() == old(self).dict_view(),
            ({
                let tk = old(self).spec_config().toggle_key;
                let buf = old(self).buffer_view();
                let dict = old(self).dict_view();
                let toggled = spec_is_toggle_key(tk, vk, shift, ctrl, alt);
                &&& (toggled ==> {
                    &&& final(self).spec_enabled() == !old(self).spec_enabled()
                    &&& final(self).buffer_view().len() == 0
                    &&& r.consumed
                    &&& (buf.len() > 0 ==> r.action == Some(EditAction::Commit))
                    &&& (buf.len() == 0 ==> r.action is None)
                })
                &&& (!toggled ==> final(self).spec_enabled() == old(self).spec_enabled())
                &&& (!toggled && !old(self).spec_enabled() ==> {
                    &&& final(self).buffer_view() == buf
                    &&& !r.consumed
                    &&& r.action is None
                })
                &&& (!toggled && old(self).spec_enabled() && (ctrl || alt) ==> {
                    &&& final(self).buffer_view().len() == 0
                    &&& !r.consumed
                    &&& (buf.len() > 0 ==> r.action == Some(EditAction::Commit))
                    &&& (buf.len() == 0 ==> r.action is None)
                })
                &&& (!toggled && old(self).spec_enabled() && !(ctrl || alt)
                    ==> spec_key_reaction(dict, buf, vk, final(self).buffer_view(), r))
            }),
    {
        if self.is_toggle_key(vk, shift, ctrl, alt) {
            let action = if !self.buffer.is_empty() {
                self.buffer.clear();
                Some(EditAction::Commit)
            } else {
                None
            };
            self.enabled = !self.enabled;
            return KeyOutcome { consumed: true, action };
        }
        if !self.enabled {
            return KeyOutcome { consumed: false, action: None };
        }
        if ctrl || alt {
            let action = if !self.buffer.is_empty() {
                self.buffer.clear();
                Some(EditAction::Commit)
            } else {
                None
            };
            return KeyOutcome { consumed: false, action };
        }
        if let Some(c) = key_handler::vk_to_char(vk) {
            self.buffer.push(c);
            let action = self.update_action();
            return KeyOutcome { consumed: true, action: Some(action) };
        }
        if !self.buffer.is_empty() {
            if vk == key_handler::VK_BACK {
                let _ = self.buffer.pop();
                proof {
                    assert(self.buffer@ =~= old(self).buffer@.drop_last());
                }
                if self.buffer.is_empty() {
                    return KeyOutcome { consumed: true, action: Some(EditAction::Cancel) };
                }
                let action = self.update_action();
                return KeyOutcome { consumed: true, action: Some(action) };
            }
            if vk == key_handler::VK_RETURN {
                self.buffer.clear();
                return KeyOutcome { consumed: true, action: Some(EditAction::Commit) };
            }
            if vk == key_handler::VK_ESCAPE {
                self.buffer.clear();
                return KeyOutcome { consumed: true, action: Some(EditAction::Cancel) };
            }
            if vk == key_handler::VK_SPACE {
                self.buffer.push(' ');
                let action = self.update_action();
                return KeyOutcome { consumed: true, action: Some(action) };
            }
            // navigation keys and anything unsupported: auto-commit,
            // then let the key pass through
            self.buffer.clear();
            return KeyOutcome { consumed: false, action: Some(EditAction::Commit) };
        }
        KeyOutcome { consumed: false, action: None }
    }

    /// Focus change.  Losing focus cancels any open composition: no
    /// text survives an abrupt focus change.
    pub fn on_set_focus(&mut self, foreground: bool) -> (r: Option<EditAction>)
        requires
            old(self).wf(),
        ensures
            final(self).wf(),
            final(self).spec_enabled() == old(self).spec_enabled(),
            final(self).spec_config() == old(self).spec_config(),
            final(self).dict_view() == old(self).dict_view(),
            foreground ==> final(self).buffer_view() == old(self).buffer_view() && r is None,
            !foreground ==> final(self).buffer_view().len() == 0,
            !foreground ==> r == (if old(self).buffer_view().len() > 0 {
                Some(EditAction::Cancel)
            } else {
                None
            }),
    {
        if !foreground {
            if !self.buffer.is_empty() {
                self.buffer.clear();
                return Some(EditAction::Cancel);
            }
        }
        None
    }

    /// The host ended the composition on its own: forget the pending
    /// input.
    pub fn on_composition_terminated(&mut self)
        ensures
            final(self).wf(),
            final(self).buffer_view().len() == 0,
            final(self).spec_enabled() == old(self).spec_enabled(),
            final(self).spec_config() == old(self).spec_config(),
            final(self).dict_view() == old(self).dict_view(),
    {
        self.buffer.clear();
    }

    /// Installs freshly loaded settings and override entries —
    /// atomically, from the state machine's point of view.
    pub fn reload_config(&mut self, config: Config, user_dict: UserDict)
        requires
            old(self).wf(),
        ensures
            final(self).wf(),
            final(self).buffer_view() == old(self).buffer_view(),
            final(self).spec_enabled() == old(self).spec_enabled(),
            final(self).spec_config() == config,
            final(self).dict_view() == user_dict@,
    {
        self.config = config;
        self.user_dict = user_dict;
        proof {
            assert forall|i: int|
                0 <= i < self.buffer_view().len() implies buffer_char(
                #[trigger] self.buffer_view()[i],
            ) by {
                assert(buffer_char(old(self).buffer_view()[i]));
            }
        }
    }

    /// Applies an action picked from the tray menu.  Returns whether
    /// the caller should reload the settings and dictionary and hand
    /// them back through [`TextService::reload_config`].
    pub fn check_tray_action(&mut self, action: TrayAction) -> (r: bool)
        requires
            old(self).wf(),
        ensures
            final(self).wf(),
            final(self).buffer_view() == old(self).buffer_view(),
            final(self).spec_config() == old(self).spec_config(),
            final(self).dict_view() == old(self).dict_view(),
            action is Idle ==> final(self).spec_enabled() == old(self).spec_enabled() && !r,
            action is Toggle ==> final(self).spec_enabled() == !old(self).spec_enabled() && !r,
            action is Reload ==> final(self).spec_enabled() == old(self).spec_enabled() && r,
    {
        proof {
            assert forall|i: int|
                0 <= i < self.buffer_view().len() implies buffer_char(
                #[trigger] self.buffer_view()[i],
            ) by {
                assert(buffer_char(old(self).buffer_view()[i]));
            }
        }
        match action {
            TrayAction::Idle => false,
            TrayAction::Toggle => {
                self.enabled = !self.enabled;
                false
            },
            TrayAction::Reload => true,
        }
    }

    /// Whether the input method is switched on.
    pub fn enabled(&self) -> (r: bool)
        ensures
            r == self.spec_enabled(),
    {
        self.enabled
    }

    /// Whether a composition is open, that is, input is pending.
    pub fn is_composing(&self) -> (r: bool)
        ensures
            r == (self.buffer_view().len() > 0),
    {
        !self.buffer.is_empty()
    }

    /// The pending romanized input as text.
    pub fn buffer_text(&self) -> (r: String)
        ensures
            r@ == self.buffer_view(),
    {
        chars_to_string(&self.buffer)
    }
}

/// The reaction of [`TextService::on_key_down`] to a key pressed with
/// the input method enabled, no modifier held and the toggle not
/// matched: how the buffer moves from `buf` to `new_buf` and what
/// outcome `r` the event has.
pub open spec fn spec_key_reaction(
    dict: Seq<(Seq<char>, Seq<char>)>,
    buf: Seq<char>,
    vk: u32,
    new_buf: Seq<char>,
    r: KeyOutcome,
) -> bool {
    match key_handler::spec_vk_to_char(vk) {
        Some(c) => {
            &&& new_buf == buf.push(c)
            &&& r.consumed
            &&& action_is_update(r.action, utf16_of(composed_spec(dict, buf.push(c))))
        },
        None => {
            if buf.len() == 0 {
                &&& new_buf == buf
                &&& !r.consumed
                &&& r.action is None
            } else if vk == key_handler::VK_BACK {
                &&& new_buf == buf.drop_last()
                &&& r.consumed
                &&& (buf.len() == 1 ==> r.action == Some(EditAction::Cancel))
                &&& (buf.len() > 1 ==> action_is_update(
                    r.action,
                    utf16_of(composed_spec(dict, buf.drop_last())),
                ))
            } else if vk == key_handler::VK_RETURN {
                &&& new_buf.len() == 0
                &&& r.consumed
                &&& r.action == Some(EditAction::Commit)
            } else if vk == key_handler::VK_ESCAPE {
                &&& new_buf.len() == 0
                &&& r.consumed
                &&& r.action == Some(EditAction::Cancel)
            } else if vk == key_handler::VK_SPACE {
                &&& new_buf == buf.push(' ')
                &&& r.consumed
                &&& action_is_update(r.action, utf16_of(composed_spec(dict, buf.push(' '))))
            } else {
                &&& new_buf.len() == 0
                &&& !r.consumed
                &&& r.action == Some(EditAction::Commit)
            }
        },
    }
}

/// The consumption decision of [`TextService::on_test_key_down`]: the
/// toggle is always taken; a disabled input method takes nothing else;
/// held modifiers and unsupported keys are taken only to auto-commit a
/// pending composition; letter keys are always taken.
pub open spec fn spec_on_test_key_down(
    tk: ToggleKey,
    enabled: bool,
    buf_len: nat,
    vk: u32,
    shift: bool,
    ctrl: bool,
    alt: bool,
) -> bool {
    if spec_is_toggle_key(tk, vk, shift, ctrl, alt) {
        true
    } else if !enabled {
        false
    } else if ctrl || alt {
        buf_len > 0
    } else if key_handler::spec_vk_to_char(vk) is Some {
        true
    } else {
        buf_len > 0
    }
}

} // verus!
