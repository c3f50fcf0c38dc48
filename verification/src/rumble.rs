//! Gameplay feedback playback: which rumble effect a motor plays.
//!
//! Times are monotonic clock readings in nanoseconds.
use vstd::prelude::*;

verus! {

/// One rumble request: motor strengths, length and priority (a higher
/// priority wins).
#[derive(Clone, Copy, Debug, PartialEq, Eq, Structural)]
pub struct RumbleEffect {
    pub low: u16,
    pub high: u16,
    pub duration_ms: u32,
    pub priority: u8,
}

/// Nanoseconds in one millisecond.
pub const NANOS_PER_MILLI: u64 = 1_000_000;

/// Combined motor strength of an effect.
pub open spec fn strength(e: RumbleEffect) -> int {
    e.low + e.high
}

/// `effect` may not replace `active`: it is weaker, by priority or, at equal
/// priority, by combined strength.
pub open spec fn weaker(effect: RumbleEffect, active: RumbleEffect) -> bool {
    effect.priority < active.priority || (effect.priority == active.priority && strength(effect)
        < strength(active))
}

/// `u32::saturating_mul`.
pub open spec fn saturating_mul_u32(a: int, b: int) -> int {
    if a * b > u32::MAX { u32::MAX as int } else { a * b }
}

impl RumbleEffect {
    /// The classic fixed-priority effect of `ticks` game ticks at `tps` ticks per second.
    pub fn original(low: u16, high: u16, ticks: u32, tps: u32) -> (e: RumbleEffect)
        ensures
            e.low == low,
            e.high == high,
            e.priority == 3,
            e.duration_ms == saturating_mul_u32(ticks as int, 1000) / (if tps == 0 { 1 } else { tps as int }),
    {
        let wide: u64 = ticks as u64 * 1000;
        let ms: u32 = if wide > u32::MAX as u64 { u32::MAX } else { wide as u32 };
        let div: u32 = if tps == 0 { 1 } else { tps };
        RumbleEffect { low, high, duration_ms: ms / div, priority: 3 }
    }
}

/// The effect a motor plays and when (in nanoseconds) it ends.
pub struct RumblePlayback {
    active: Option<(RumbleEffect, u64)>,
}

impl View for RumblePlayback {
    type V = Option<(RumbleEffect, u64)>;

    closed spec fn view(&self) -> Option<(RumbleEffect, u64)> {
        self.active
    }
}

impl Default for RumblePlayback {
    fn default() -> (r: RumblePlayback)
        ensures
            r@ is None,
    {
        RumblePlayback { active: None }
    }
}

/// Whether `accept(effect, now)` plays the effect given what was playing.
pub open spec fn accepts(active: Option<(RumbleEffect, u64)>, effect: RumbleEffect, now: u64) -> bool {
    match active {
        Some((a, until)) => !(until > now && weaker(effect, a)),
        None => true,
    }
}

impl RumblePlayback {
    /// Starts `effect` unless a stronger effect is still playing; true when started.
    pub fn accept(&mut self, effect: RumbleEffect, now: u64) -> (started: bool)
        requires
            now + effect.duration_ms * NANOS_PER_MILLI <= u64::MAX,
        ensures
            started == accepts(old(self)@, effect, now),
            started ==> final(self)@ == Some((effect, (now + effect.duration_ms * NANOS_PER_MILLI) as u64)),
            !started ==> final(self)@ == old(self)@,
    {
        if let Some((active, until)) = self.active {
            if until > now && (effect.priority < active.priority || (effect.priority == active.priority
                && (effect.low as u32) + (effect.high as u32) < (active.low as u32) + (active.high as u32))) {
                return false;
            }
        }
        self.active = Some((effect, now + (effect.duration_ms as u64) * NANOS_PER_MILLI));
        true
    }

    /// Forgets the current effect; true when one was set.
    pub fn stop(&mut self) -> (was_set: bool)
        ensures
            was_set == (old(self)@ is Some),
            final(self)@ is None,
    {
        let was_set = self.active.is_some();
        self.active = None;
        was_set
    }

    /// An enhanced (priority below 3) effect is set.
    pub fn enhanced_active(&self) -> (r: bool)
        ensures
            r == (self@ matches Some((e, _)) && e.priority < 3),
    {
        match self.active {
            Some((e, _)) => e.priority < 3,
            None => false,
        }
    }
}

/// The rank by which pending feedback is replaced: priority, then combined
/// strength, then duration.
pub open spec fn outranks(effect: RumbleEffect, old: RumbleEffect) -> bool {
    effect.priority > old.priority || (effect.priority == old.priority && (strength(effect) > strength(
        old) || (strength(effect) == strength(old) && effect.duration_ms > old.duration_ms)))
}

/// The pending feedback after `effect` is requested.
pub open spec fn pending_after(pending: Option<RumbleEffect>, effect: RumbleEffect) -> Option<RumbleEffect> {
    match pending {
        Some(old) => if outranks(effect, old) { Some(effect) } else { pending },
        None => Some(effect),
    }
}

/// Which feedback a request leaves pending: the request where nothing is
/// pending; else a higher priority wins; at equal priority the greater
/// combined strength (low plus high motor) wins; at equal strength too, the
/// longer one, the pending one staying on a full tie.
pub proof fn law_stronger_feedback_wins(old: RumbleEffect, effect: RumbleEffect)
    ensures
        pending_after(None, effect) == Some(effect),
        effect.priority > old.priority ==> pending_after(Some(old), effect) == Some(effect),
        effect.priority < old.priority ==> pending_after(Some(old), effect) == Some(old),
        effect.priority == old.priority && effect.low + effect.high > old.low + old.high ==> pending_after(
            Some(old),
            effect,
        ) == Some(effect),
        effect.priority == old.priority && effect.low + effect.high < old.low + old.high ==> pending_after(
            Some(old),
            effect,
        ) == Some(old),
        effect.priority == old.priority && effect.low + effect.high == old.low + old.high ==> pending_after(
            Some(old),
            effect,
        ) == if effect.duration_ms > old.duration_ms { Some(effect) } else { Some(old) },
{
}

/// The pending feedback after `effect` is requested: it replaces nothing or a
/// lower-ranked effect, and is dropped otherwise.
pub fn pending_after_request(pending: Option<RumbleEffect>, effect: RumbleEffect) -> (r: Option<RumbleEffect>)
    ensures
        r == pending_after(pending, effect),
{
    match pending {
        None => Some(effect),
        Some(old) => {
            let s_new: u32 = effect.low as u32 + effect.high as u32;
            let s_old: u32 = old.low as u32 + old.high as u32;
            if effect.priority > old.priority || (effect.priority == old.priority && (s_new > s_old || (s_new
                == s_old && effect.duration_ms > old.duration_ms))) {
                Some(effect)
            } else {
                pending
            }
        },
    }
}

/// An effect that starts is not cut short by a weaker one: until it ends,
/// weaker effects are refused, and once it has ended any effect plays.
pub proof fn law_weaker_effects_wait(playing: RumbleEffect, effect: RumbleEffect, started: u64, now: u64)
    requires
        started + playing.duration_ms * NANOS_PER_MILLI <= u64::MAX,
    ensures
        ({
            let until = (started + playing.duration_ms * NANOS_PER_MILLI) as u64;
            &&& now < until && weaker(effect, playing) ==> !accepts(Some((playing, until)), effect, now)
            &&& now >= until ==> accepts(Some((playing, until)), effect, now)
        }),
{
}

/// The longest vibration sent through the Bluetooth path at once, in milliseconds.
pub const BLUETOOTH_MAX_MS: u32 = 2500;

/// A vibration for the Bluetooth path: the platform device and its motors.
#[derive(Clone, Copy, Debug, PartialEq, Eq, Structural)]
pub struct BluetoothRumble {
    pub device: i32,
    pub low: u16,
    pub high: u16,
    pub ms: u32,
}

/// The Bluetooth vibration for platform device `device` (negative where the
/// platform does not drive the pad): none for such a pad, and otherwise the
/// motors as asked for at most `BLUETOOTH_MAX_MS` milliseconds.
pub fn bluetooth_rumble(device: i32, low: u16, high: u16, ms: u32) -> (r: Option<BluetoothRumble>)
    ensures
        device < 0 ==> r is None,
        device >= 0 ==> r == Some(BluetoothRumble {
            device,
            low,
            high,
            ms: if ms < BLUETOOTH_MAX_MS { ms } else { BLUETOOTH_MAX_MS },
        }),
{
    if device < 0 {
        return None;
    }
    Some(BluetoothRumble { device, low, high, ms: if ms < BLUETOOTH_MAX_MS { ms } else { BLUETOOTH_MAX_MS } })
}

} // verus!
