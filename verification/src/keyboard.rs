//! Keyboard input model: the key surface the viewer reacts to, and the
//! debounce decision that suppresses a key repeated too quickly.
//!
//! Time enters as a plain millisecond count supplied by the caller, so the
//! decision itself is a pure transition on the handler's fields.

use vstd::prelude::*;

verus! {

/// The keys the viewer's loop distinguishes. Anything else is `Other`.
#[derive(Debug, Clone, Copy, PartialEq, Eq, Structural)]
pub enum KeyInput {
    Up,
    Down,
    Left,
    Right,
    Home,
    End,
    CharR,
    CharQ,
    Esc,
    Other,
}

/// Debounce state: the last accepted key, when it was accepted, and the
/// interval within which the same key is ignored.
#[derive(Debug, Clone, Copy, PartialEq, Eq, Structural)]
pub struct KeyboardHandler {
    pub last_key_time_ms: u64,
    pub last_key_code: Option<KeyInput>,
    pub debounce_duration_ms: u64,
}

impl KeyboardHandler {
    /// The key is the same one accepted last.
    pub open spec fn spec_same_key(self, code: KeyInput) -> bool {
        self.last_key_code == Some(code)
    }

    /// Whether the key at time `now_ms` passes the debounce: a repeat of
    /// the last key is dropped while the interval has not elapsed.
    pub open spec fn spec_accepts(self, code: KeyInput, now_ms: u64) -> bool {
        !(self.spec_same_key(code) && now_ms - self.last_key_time_ms < self.debounce_duration_ms)
    }

    pub fn new(debounce_duration_ms: u64) -> (r: Self)
        ensures
            r == (KeyboardHandler { last_key_time_ms: 0, last_key_code: None, debounce_duration_ms }),
    {
        KeyboardHandler { last_key_time_ms: 0, last_key_code: None, debounce_duration_ms }
    }

    /// The handler the viewer starts with: a 150 ms debounce.
    pub fn default() -> (r: Self)
        ensures
            r == (KeyboardHandler {
                last_key_time_ms: 0,
                last_key_code: None,
                debounce_duration_ms: 150,
            }),
    {
        Self::new(150)
    }

    /// Decide whether to process the key seen at `now_ms`; an accepted key
    /// is recorded, a dropped one leaves the state unchanged. Time is
    /// monotonic: `now_ms` never precedes the last accepted time.
    pub fn should_process_key(&mut self, code: KeyInput, now_ms: u64) -> (r: bool)
        requires
            old(self).last_key_time_ms <= now_ms,
        ensures
            r == old(self).spec_accepts(code, now_ms),
            r ==> *final(self) == (KeyboardHandler {
                last_key_time_ms: now_ms,
                last_key_code: Some(code),
                debounce_duration_ms: old(self).debounce_duration_ms,
            }),
            !r ==> *final(self) == *old(self),
    {
        let is_same_key = match self.last_key_code {
            Some(k) => k == code,
            None => false,
        };
        if is_same_key && now_ms - self.last_key_time_ms < self.debounce_duration_ms {
            return false;
        }
        self.last_key_code = Some(code);
        self.last_key_time_ms = now_ms;
        true
    }
}

} // verus!
