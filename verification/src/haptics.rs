use crate::gamepad::GamepadId;
use crate::store::{reveal_view, Gamepads, GamepadsView, MAX_GAMEPADS};
use vstd::arithmetic::div_mod::lemma_multiply_divide_lt;
use vstd::prelude::*;

verus! {

/// One entry of the live haptic-effect ledger: the token under which
/// the host glue retains the backend's effect handle, and the absolute
/// time at which the effect is over and may be released.
#[derive(Clone, Copy, Debug, PartialEq, Eq, Structural)]
pub struct LiveEffect {
    /// Token naming the backend effect handle held by the host glue.
    pub token: u64,
    /// Absolute expiry time in milliseconds.
    pub expiry_ms: u64,
}

/// A planned dual-rumble submission: everything the host glue needs
/// to build and play the backend effect, and the ledger entry to
/// retain on success.
#[derive(Clone, Copy, Debug, PartialEq, Eq, Structural)]
pub struct RumbleCommand {
    /// Backend-native handle of the device to rumble.
    pub handle: u64,
    /// Token under which to retain the submitted effect.
    pub token: u64,
    /// Absolute expiry time of the effect in milliseconds.
    pub expiry_ms: u64,
    /// Duration of the rumble in milliseconds.
    pub duration_ms: u32,
    /// Delay before the rumble starts, in milliseconds.
    pub start_delay_ms: u32,
    /// Strong (low-frequency) channel magnitude in native units.
    pub strong_magnitude: u16,
    /// Weak (high-frequency) channel magnitude in native units.
    pub weak_magnitude: u16,
}

/// What one rumble request decides: which retained effects are over
/// and must be released, and the submission to attempt, if the slot
/// is backed by a device.
#[derive(Debug)]
pub struct RumbleOutcome {
    /// Tokens of the effects purged as expired: the host glue drops
    /// their handles.
    pub purged: Vec<u64>,
    /// The submission to attempt; nothing when the id names a slot no
    /// device has claimed, in which case the request is dropped.
    pub command: Option<RumbleCommand>,
}

/// The ledger entries among the first `n` that are still running at
/// `now`, in order.
pub open spec fn kept_prefix(s: Seq<LiveEffect>, now: u64, n: int) -> Seq<LiveEffect>
    decreases n,
{
    if n <= 0 {
        Seq::empty()
    } else {
        kept_prefix(s, now, n - 1) + if s[n - 1].expiry_ms > now {
            seq![s[n - 1]]
        } else {
            Seq::empty()
        }
    }
}

/// The ledger after a purge at `now`: exactly the entries whose
/// expiry lies in the future, in order.
pub open spec fn kept_effects(s: Seq<LiveEffect>, now: u64) -> Seq<LiveEffect> {
    kept_prefix(s, now, s.len() as int)
}

/// The tokens among the first `n` entries whose effect is over at
/// `now`, in order.
pub open spec fn purged_prefix(s: Seq<LiveEffect>, now: u64, n: int) -> Seq<u64>
    decreases n,
{
    if n <= 0 {
        Seq::empty()
    } else {
        purged_prefix(s, now, n - 1) + if s[n - 1].expiry_ms > now {
            Seq::empty()
        } else {
            seq![s[n - 1].token]
        }
    }
}

/// The tokens a purge at `now` releases: those of every entry whose
/// expiry has been reached.
pub open spec fn purged_tokens(s: Seq<LiveEffect>, now: u64) -> Seq<u64> {
    purged_prefix(s, now, s.len() as int)
}

/// A normalized magnitude in millionths scaled to a native integer
/// range `0..=max`, rounded to nearest; inputs beyond a full
/// magnitude are clamped.
pub open spec fn scale_magnitude_spec(micro: int, max: int) -> int {
    let c = if micro > 1_000_000 {
        1_000_000int
    } else {
        micro
    };
    (c * max + 500_000) / 1_000_000
}

/// The successor token, wrapping at the top of the range.
pub open spec fn wrap_inc(t: u64) -> u64 {
    if t == u64::MAX {
        0
    } else {
        (t + 1) as u64
    }
}

/// Scale a normalized magnitude in millionths to the 16-bit native
/// range, rounding to nearest.
pub fn magnitude_to_u16(micro: u32) -> (r: u16)
    ensures
        r == scale_magnitude_spec(micro as int, 0xFFFF),
{
    let c: u64 = if micro > 1_000_000 {
        1_000_000
    } else {
        micro as u64
    };
    let q: u64 = (c * 0xFFFF + 500_000) / 1_000_000;
    proof {
        lemma_multiply_divide_lt((c * 0xFFFF + 500_000) as int, 1_000_000int, 0x1_0000int);
    }
    q as u16
}

/// Scale a normalized magnitude in millionths to the mobile
/// vibrator's amplitude range `0..=255`, rounding to nearest.
pub fn magnitude_to_android(micro: u32) -> (r: u32)
    ensures
        r == scale_magnitude_spec(micro as int, 255),
{
    let c: u64 = if micro > 1_000_000 {
        1_000_000
    } else {
        micro as u64
    };
    let q: u64 = (c * 255 + 500_000) / 1_000_000;
    proof {
        lemma_multiply_divide_lt((c * 255 + 500_000) as int, 1_000_000int, 256int);
    }
    q as u32
}

impl Gamepads {
    /// Plan a rumble request at absolute time `now_ms`: purge the
    /// effects that are over, and, if the id's slot is backed by a
    /// device, plan a dual-rumble submission against that device's
    /// native handle, with both channel magnitudes (given in
    /// millionths of full strength) scaled to native units by
    /// rounding to nearest. The host glue performs the purges and the
    /// submission, and on success retains the effect under the
    /// planned token via [`Gamepads::retain_effect`]; on backend
    /// failure it simply drops the command, haptics being
    /// best-effort.
    pub fn rumble(
        &mut self,
        now_ms: u64,
        gamepad_id: GamepadId,
        duration_ms: u32,
        start_delay_ms: u32,
        strong_magnitude: u32,
        weak_magnitude: u32,
    ) -> (out: RumbleOutcome)
        requires
            old(self)@.wf(),
            now_ms + duration_ms + start_delay_ms <= u64::MAX,
        ensures
            final(self)@.wf(),
            final(self)@.effects == kept_effects(old(self)@.effects, now_ms),
            out.purged@ == purged_tokens(old(self)@.effects, now_ms),
            final(self)@.gamepads == old(self)@.gamepads,
            final(self)@.handles == old(self)@.handles,
            final(self)@.num_pads == old(self)@.num_pads,
            final(self)@.deadzones == old(self)@.deadzones,
            (gamepad_id.spec_value() as int) < (old(self)@.num_pads as int) ==> out.command
                == Some(
                RumbleCommand {
                    handle: old(self)@.handles[gamepad_id.spec_value() as int],
                    token: old(self)@.next_token,
                    expiry_ms: (now_ms + duration_ms + start_delay_ms) as u64,
                    duration_ms,
                    start_delay_ms,
                    strong_magnitude: scale_magnitude_spec(
                        strong_magnitude as int,
                        0xFFFF,
                    ) as u16,
                    weak_magnitude: scale_magnitude_spec(weak_magnitude as int, 0xFFFF) as u16,
                },
            ) && final(self)@.next_token == wrap_inc(old(self)@.next_token),
            (gamepad_id.spec_value() as int) >= (old(self)@.num_pads as int) ==> out.command
                is None && final(self)@.next_token == old(self)@.next_token,
    {
        proof {
            reveal_view(*self);
        }
        let mut kept: Vec<LiveEffect> = Vec::new();
        let mut purged: Vec<u64> = Vec::new();
        let mut i: usize = 0;
        let n = self.playing_effects.len();
        while i < n
            invariant
                n == old(self)@.effects.len(),
                self@ == old(self)@,
                self@.effects == self.playing_effects@,
                i <= n,
                kept@ == kept_prefix(old(self)@.effects, now_ms, i as int),
                purged@ == purged_prefix(old(self)@.effects, now_ms, i as int),
            decreases n - i,
        {
            let e = self.playing_effects[i];
            if e.expiry_ms > now_ms {
                kept.push(e);
            } else {
                purged.push(e.token);
            }
            proof {
                assert(kept@ =~= kept_prefix(old(self)@.effects, now_ms, i + 1));
                assert(purged@ =~= purged_prefix(old(self)@.effects, now_ms, i + 1));
            }
            i = i + 1;
        }
        self.playing_effects = kept;
        let command = if (gamepad_id.value() as usize) < (self.num_connected_pads as usize) {
            let token = self.next_effect_token;
            self.next_effect_token = if token == u64::MAX {
                0
            } else {
                token + 1
            };
            Some(
                RumbleCommand {
                    handle: self.native_handles[gamepad_id.value() as usize],
                    token,
                    expiry_ms: now_ms + duration_ms as u64 + start_delay_ms as u64,
                    duration_ms,
                    start_delay_ms,
                    strong_magnitude: magnitude_to_u16(strong_magnitude),
                    weak_magnitude: magnitude_to_u16(weak_magnitude),
                },
            )
        } else {
            None
        };
        proof {
            reveal_view(*self);
        }
        RumbleOutcome { purged, command }
    }

    /// Retain a submitted effect in the live ledger until its expiry:
    /// run by the host glue exactly when the backend accepted the
    /// planned submission.
    pub fn retain_effect(&mut self, token: u64, expiry_ms: u64)
        requires
            old(self)@.wf(),
        ensures
            final(self)@.wf(),
            final(self)@ == (GamepadsView {
                effects: old(self)@.effects.push(LiveEffect { token, expiry_ms }),
                ..old(self)@
            }),
    {
        self.playing_effects.push(LiveEffect { token, expiry_ms });
        proof {
            reveal_view(*old(self));
            reveal_view(*self);
            assert(self@ =~= (GamepadsView {
                effects: old(self)@.effects.push(LiveEffect { token, expiry_ms }),
                ..old(self)@
            }));
        }
    }

    /// The tokens of the effects currently retained in the ledger, in
    /// order.
    pub fn live_effect_tokens(&self) -> (r: Vec<u64>)
        ensures
            r@.len() == self@.effects.len(),
            forall|k: int| 0 <= k < r@.len() ==> r@[k] == self@.effects[k].token,
    {
        proof {
            reveal_view(*self);
        }
        let mut r: Vec<u64> = Vec::new();
        let mut i: usize = 0;
        let n = self.playing_effects.len();
        while i < n
            invariant
                n == self@.effects.len(),
                self@.effects == self.playing_effects@,
                i <= n,
                r@.len() == i,
                forall|k: int| 0 <= k < i ==> r@[k] == self@.effects[k].token,
            decreases n - i,
        {
            r.push(self.playing_effects[i].token);
            i = i + 1;
        }
        r
    }
}

/// A retained effect survives a purge exactly while its expiry lies
/// in the future: a purge strictly before the expiry keeps the entry,
/// and the first purge at or after the expiry drops it and releases
/// its token.
pub proof fn lemma_haptic_expiry(s: Seq<LiveEffect>, now: u64, e: LiveEffect)
    requires
        s.contains(e),
    ensures
        kept_effects(s, now).contains(e) == (e.expiry_ms > now),
        e.expiry_ms <= now ==> purged_tokens(s, now).contains(e.token),
{
    lemma_haptic_expiry_prefix(s, now, s.len() as int, e);
    let k = choose|k: int| 0 <= k < s.len() && s[k] == e;
}

proof fn lemma_haptic_expiry_prefix(s: Seq<LiveEffect>, now: u64, n: int, e: LiveEffect)
    requires
        0 <= n <= s.len(),
    ensures
        kept_prefix(s, now, n).contains(e) == ((exists|k: int| 0 <= k < n && s[k] == e)
            && e.expiry_ms > now),
        (e.expiry_ms <= now && (exists|k: int| 0 <= k < n && s[k] == e)) ==> purged_prefix(
            s,
            now,
            n,
        ).contains(e.token),
    decreases n,
{
    if n > 0 {
        lemma_haptic_expiry_prefix(s, now, n - 1, e);
        let kp = kept_prefix(s, now, n - 1);
        let pp = purged_prefix(s, now, n - 1);
        let last = s[n - 1];
        if last.expiry_ms > now {
            assert(kept_prefix(s, now, n) == kp + seq![last]);
            assert(purged_prefix(s, now, n) =~= pp);
            assert(kept_prefix(s, now, n).contains(e) == (kp.contains(e) || e == last)) by {
                if kp.contains(e) {
                    let k = choose|k: int| 0 <= k < kp.len() && kp[k] == e;
                    assert(kept_prefix(s, now, n)[k] == e);
                }
                if e == last {
                    assert(kept_prefix(s, now, n)[kp.len() as int] == e);
                }
                if kept_prefix(s, now, n).contains(e) {
                    let k = choose|k: int|
                        0 <= k < kept_prefix(s, now, n).len() && kept_prefix(s, now, n)[k] == e;
                    if k < kp.len() {
                        assert(kp[k] == e);
                    }
                }
            }
        } else {
            assert(kept_prefix(s, now, n) =~= kp);
            assert(purged_prefix(s, now, n) == pp + seq![last.token]);
            if e.expiry_ms <= now && (exists|k: int| 0 <= k < n && s[k] == e) {
                let k = choose|k: int| 0 <= k < n && s[k] == e;
                if k < n - 1 {
                    let j = choose|j: int| 0 <= j < pp.len() && pp[j] == e.token;
                    assert(purged_prefix(s, now, n)[j] == e.token);
                } else {
                    assert(purged_prefix(s, now, n)[pp.len() as int] == e.token);
                }
            }
            if kept_prefix(s, now, n).contains(e) {
                assert((exists|k: int| 0 <= k < n - 1 && s[k] == e) && e.expiry_ms > now);
            }
            if (exists|k: int| 0 <= k < n && s[k] == e) && e.expiry_ms > now {
                let k = choose|k: int| 0 <= k < n && s[k] == e;
                assert(k < n - 1);
            }
        }
    }
}

} // verus!
