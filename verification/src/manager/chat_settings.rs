//! The authentication and conversation settings an administrator edits in
//! the console, and how an edit is applied to them.
use vstd::prelude::*;
use crate::json_fields::{flag_at, json_flag_at, json_text_at, json_u64_at, json_unsigned_at, text_at};
use crate::text::owned;

verus! {

/// The settings edited on the console's settings page.
#[derive(Debug, Clone)]
pub struct ChatSettings {
    /// Whether devices must authenticate.
    pub auth_enable: bool,
    /// Whether logging in asks for a captcha.
    pub login_captcha_enabled: bool,
    /// Seconds of idleness after which a conversation ends.
    pub max_idle_duration: u64,
    /// Seconds of silence after which the device stops listening.
    pub chat_max_silence_duration: u64,
    /// Milliseconds within which a repeated speak request is reused.
    pub speak_request_reuse_window_ms: u64,
    /// The conversation mode.
    pub realtime_mode: u8,
    /// The system prompt of every conversation.
    pub global_system_prompt: String,
    /// The system prompt of the configuration file.
    pub system_prompt: String,
}

/// The plain content of the settings.
pub struct ChatSettingsView {
    pub auth_enable: bool,
    pub login_captcha_enabled: bool,
    pub max_idle_duration: u64,
    pub chat_max_silence_duration: u64,
    pub speak_request_reuse_window_ms: u64,
    pub realtime_mode: u8,
    pub global_system_prompt: Seq<char>,
    pub system_prompt: Seq<char>,
}

impl View for ChatSettings {
    type V = ChatSettingsView;

    open spec fn view(&self) -> ChatSettingsView {
        ChatSettingsView {
            auth_enable: self.auth_enable,
            login_captcha_enabled: self.login_captcha_enabled,
            max_idle_duration: self.max_idle_duration,
            chat_max_silence_duration: self.chat_max_silence_duration,
            speak_request_reuse_window_ms: self.speak_request_reuse_window_ms,
            realtime_mode: self.realtime_mode,
            global_system_prompt: self.global_system_prompt@,
            system_prompt: self.system_prompt@,
        }
    }
}

/// A number as `as u8` keeps it: its low byte.
pub open spec fn low_byte(v: u64) -> u8 {
    (v % 256) as u8
}

/// The settings after an edit.  `body` is the JSON the page sends: each
/// of `auth.enable`, `auth.login_captcha_enabled` (booleans),
/// `chat.max_idle_duration`, `chat.chat_max_silence_duration`,
/// `chat.realtime_mode` (unsigned numbers; the mode keeps its low byte)
/// and `chat.global_system_prompt` (a string, which also becomes the
/// configuration's system prompt) replaces the setting when it is there
/// with that type; anything else is left as it was.
pub open spec fn edited(s: ChatSettingsView, body: Seq<char>) -> ChatSettingsView {
    let prompt = text_at(body, "/chat/global_system_prompt"@);
    ChatSettingsView {
        auth_enable: match flag_at(body, "/auth/enable"@) {
            Some(b) => b,
            None => s.auth_enable,
        },
        login_captcha_enabled: match flag_at(body, "/auth/login_captcha_enabled"@) {
            Some(b) => b,
            None => s.login_captcha_enabled,
        },
        max_idle_duration: match json_unsigned_at(body, "/chat/max_idle_duration"@) {
            Some(v) => v,
            None => s.max_idle_duration,
        },
        chat_max_silence_duration: match json_unsigned_at(body, "/chat/chat_max_silence_duration"@) {
            Some(v) => v,
            None => s.chat_max_silence_duration,
        },
        speak_request_reuse_window_ms: s.speak_request_reuse_window_ms,
        realtime_mode: match json_unsigned_at(body, "/chat/realtime_mode"@) {
            Some(v) => low_byte(v),
            None => s.realtime_mode,
        },
        global_system_prompt: match prompt {
            Some(p) => p,
            None => s.global_system_prompt,
        },
        system_prompt: match prompt {
            Some(p) => p,
            None => s.system_prompt,
        },
    }
}

impl ChatSettings {
    /// Applies an edit sent by the settings page (see `edited`).
    pub fn apply_edit(&mut self, body: &str)
        ensures
            final(self)@ == edited(old(self)@, body@),
    {
        if let Some(v) = json_flag_at(body, "/auth/enable") {
            self.auth_enable = v;
        }
        if let Some(v) = json_flag_at(body, "/auth/login_captcha_enabled") {
            self.login_captcha_enabled = v;
        }
        if let Some(v) = json_u64_at(body, "/chat/max_idle_duration") {
            self.max_idle_duration = v;
        }
        if let Some(v) = json_u64_at(body, "/chat/chat_max_silence_duration") {
            self.chat_max_silence_duration = v;
        }
        if let Some(v) = json_u64_at(body, "/chat/realtime_mode") {
            self.realtime_mode = (v % 256) as u8;
        }
        if let Some(p) = json_text_at(body, "/chat/global_system_prompt") {
            self.system_prompt = owned(p.as_str());
            self.global_system_prompt = p;
        }
    }

    /// The settings a fresh database is seeded with: these, with the
    /// configuration's system prompt as the global one when no global one
    /// is set.
    pub fn seeded(self) -> (r: ChatSettings)
        ensures
            r.global_system_prompt@ == if self.global_system_prompt@.len() == 0
                && self.system_prompt@.len() > 0 {
                self.system_prompt@
            } else {
                self.global_system_prompt@
            },
            r.system_prompt == self.system_prompt,
            r.auth_enable == self.auth_enable,
            r.login_captcha_enabled == self.login_captcha_enabled,
            r.max_idle_duration == self.max_idle_duration,
            r.chat_max_silence_duration == self.chat_max_silence_duration,
            r.speak_request_reuse_window_ms == self.speak_request_reuse_window_ms,
            r.realtime_mode == self.realtime_mode,
    {
        let mut r = self;
        if r.global_system_prompt.as_str().is_empty() && !r.system_prompt.as_str().is_empty() {
            r.global_system_prompt = owned(r.system_prompt.as_str());
        }
        r
    }
}

} // verus!
