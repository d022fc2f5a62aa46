use vstd::prelude::*;

verus! {

/// The compositor-supplied key-repeat timing, in milliseconds. A
/// non-positive delay or rate disables repeat.
#[derive(Clone, Copy, PartialEq, Eq, Structural, Debug)]
pub struct KeyRepeatInfo {
    pub delay: i32,
    pub rate: i32,
}

/// The most recent still-pressed key, tracked for repeat synthesis: its
/// resolved symbol, the press timestamp, and how many synthetic repeats
/// have fired for it so far.
#[derive(Clone, Copy, PartialEq, Eq, Structural, Debug)]
pub struct HeldKey {
    pub keysym: u32,
    pub pressed_ms: u64,
    pub repeat_count: i32,
}

/// Raw hardware key codes are offset by a fixed constant before symbol
/// lookup: the universal evdev-to-protocol keycode offset.
pub const KEYCODE_OFFSET: u32 = 8;

/// The keycode under which a raw hardware key is looked up in the keymap.
pub fn protocol_keycode(raw: u32) -> (r: u32)
    requires
        raw + KEYCODE_OFFSET <= u32::MAX,
    ensures
        r == raw + KEYCODE_OFFSET,
{
    raw + KEYCODE_OFFSET
}

/// The keyboard input engine's record: the held key and the repeat timing.
/// Key symbols arrive here already resolved against the compiled keymap's
/// live state, which the embedding application owns.
pub struct KeyboardState {
    pub repeat_info: Option<KeyRepeatInfo>,
    pub held_key: Option<HeldKey>,
}

/// A repeat is due when repeat is enabled, and more time has passed since
/// the press than the initial delay plus one rate interval per repeat
/// already fired.
pub open spec fn repeat_due(info: KeyRepeatInfo, held: HeldKey, now_ms: u64) -> bool {
    info.delay > 0 && info.rate > 0 && now_ms - held.pressed_ms > info.delay + info.rate
        * held.repeat_count
}

impl KeyboardState {
    /// A held-key record never carries a negative repeat count.
    pub open spec fn wf(&self) -> bool {
        match self.held_key {
            Some(h) => h.repeat_count >= 0,
            None => true,
        }
    }

    pub fn new() -> (r: KeyboardState)
        ensures
            r.wf(),
            r.repeat_info is None,
            r.held_key is None,
    {
        KeyboardState { repeat_info: None, held_key: None }
    }

    /// A key press: the symbol is delivered to the keyboard callback and
    /// recorded as the held key with the press timestamp and no repeats yet.
    pub fn press(&mut self, sym: u32, now_ms: u64) -> (deliver: u32)
        ensures
            deliver == sym,
            final(self).wf(),
            final(self).held_key == Some(HeldKey { keysym: sym, pressed_ms: now_ms, repeat_count: 0 }),
            final(self).repeat_info == old(self).repeat_info,
    {
        self.held_key = Some(HeldKey { keysym: sym, pressed_ms: now_ms, repeat_count: 0 });
        sym
    }

    /// A key release clears the held key only when the released symbol is
    /// the held one; a mismatched release changes nothing.
    pub fn release(&mut self, sym: u32)
        requires
            old(self).wf(),
        ensures
            final(self).wf(),
            final(self).held_key == (match old(self).held_key {
                Some(h) => if h.keysym == sym { None } else { Some(h) },
                None => None::<HeldKey>,
            }),
            final(self).repeat_info == old(self).repeat_info,
    {
        match &self.held_key {
            Some(h) => {
                if h.keysym == sym {
                    self.held_key = None;
                }
            },
            None => {},
        }
    }

    /// A modifier or group change clears the held key unconditionally,
    /// even if the physical key is still down, since a modifier change
    /// invalidates in-flight repeat tracking. The caller also installs the
    /// new masks in the keymap's live state.
    pub fn on_modifiers(&mut self)
        ensures
            final(self).wf(),
            final(self).held_key is None,
            final(self).repeat_info == old(self).repeat_info,
    {
        self.held_key = None;
    }

    /// Store the compositor-reported repeat timing; the held key is kept.
    pub fn on_repeat_info(&mut self, rate: i32, delay: i32)
        requires
            old(self).wf(),
        ensures
            final(self).wf(),
            final(self).repeat_info == Some(KeyRepeatInfo { delay, rate }),
            final(self).held_key == old(self).held_key,
    {
        self.repeat_info = Some(KeyRepeatInfo { delay, rate });
    }

    /// Keyboard focus gained with keys already held down: each such key's
    /// symbol is delivered exactly once, in list order, and no held-key
    /// record is started for any of them.
    pub fn on_enter(&self, syms: &Vec<u32>) -> (deliver: Vec<u32>)
        ensures
            deliver@ == syms@,
    {
        let mut out: Vec<u32> = Vec::new();
        let n = syms.len();
        let mut i: usize = 0;
        while i < n
            invariant
                n == syms@.len(),
                0 <= i <= n,
                out@ =~= syms@.subrange(0, i as int),
            decreases n - i,
        {
            out.push(syms[i]);
            i += 1;
        }
        proof {
            assert(out@ =~= syms@);
        }
        out
    }

    /// The repeat decision alone: the held symbol, exactly when both a held
    /// key and repeat timing exist and a repeat is due now.
    pub fn key_to_repeat(&self, now_ms: u64) -> (r: Option<u32>)
        requires
            self.wf(),
            match self.held_key {
                Some(h) => h.pressed_ms <= now_ms,
                None => true,
            },
        ensures
            r == (match (self.repeat_info, self.held_key) {
                (Some(info), Some(h)) => if repeat_due(info, h, now_ms) {
                    Some(h.keysym)
                } else {
                    None::<u32>
                },
                _ => None::<u32>,
            }),
    {
        let (info, held) = match (&self.repeat_info, &self.held_key) {
            (Some(info), Some(h)) => (*info, *h),
            _ => {
                return None;
            },
        };
        if info.delay <= 0 || info.rate <= 0 {
            return None;
        }
        proof {
            assert((info.rate as int) * (held.repeat_count as int) <= (i32::MAX as int) * (
            i32::MAX as int)) by (nonlinear_arith)
                requires
                    0 < info.rate <= i32::MAX as int,
                    0 <= held.repeat_count <= i32::MAX as int,
            ;
            assert(0 <= (info.rate as int) * (held.repeat_count as int)) by (nonlinear_arith)
                requires
                    0 < info.rate,
                    0 <= held.repeat_count,
            ;
        }
        let threshold: i64 = (info.delay as i64) + (info.rate as i64) * (held.repeat_count
            as i64);
        let elapsed: u64 = now_ms - held.pressed_ms;
        if elapsed > threshold as u64 {
            Some(held.keysym)
        } else {
            None
        }
    }

    /// The repeat scheduler's one step, taken once per dispatch iteration:
    /// a synthetic repeat of the held symbol is delivered exactly when one
    /// is due, and the repeat count advances with it.
    pub fn poll_repeat(&mut self, now_ms: u64) -> (r: Option<u32>)
        requires
            old(self).wf(),
            match old(self).held_key {
                Some(h) => h.pressed_ms <= now_ms,
                None => true,
            },
        ensures
            final(self).wf(),
            r == (match (old(self).repeat_info, old(self).held_key) {
                (Some(info), Some(h)) => if repeat_due(info, h, now_ms) {
                    Some(h.keysym)
                } else {
                    None::<u32>
                },
                _ => None::<u32>,
            }),
            final(self).held_key == (match (r, old(self).held_key) {
                (Some(_), Some(h)) => Some(HeldKey {
                    keysym: h.keysym,
                    pressed_ms: h.pressed_ms,
                    repeat_count: if h.repeat_count < i32::MAX { (h.repeat_count + 1) as i32 } else { h.repeat_count },
                }),
                _ => old(self).held_key,
            }),
            final(self).repeat_info == old(self).repeat_info,
    {
        match self.key_to_repeat(now_ms) {
            Some(sym) => {
                match &self.held_key {
                    Some(h0) => {
                        let h = *h0;
                        let bumped: i32 = if h.repeat_count < i32::MAX {
                            h.repeat_count + 1
                        } else {
                            h.repeat_count
                        };
                        self.held_key = Some(HeldKey {
                            keysym: h.keysym,
                            pressed_ms: h.pressed_ms,
                            repeat_count: bumped,
                        });
                    },
                    None => {
                        proof {
                            assert(false);
                        }
                    },
                }
                Some(sym)
            },
            None => None,
        }
    }
}

/// A synthetic repeat is never early: while the time since the press is at
/// most the delay plus one rate interval per repeat already fired, no
/// repeat is due.
pub proof fn lemma_repeat_never_early(info: KeyRepeatInfo, held: HeldKey, now_ms: u64)
    requires
        held.pressed_ms <= now_ms,
        now_ms - held.pressed_ms <= info.delay + info.rate * held.repeat_count,
    ensures
        !repeat_due(info, held, now_ms),
{
}

} // verus!
