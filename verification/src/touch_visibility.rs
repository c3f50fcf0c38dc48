//! Android overlay policy. Hiding the overlay never disables touch input.
//!
//! Times are monotonic clock readings in nanoseconds.
use vstd::prelude::*;

verus! {

/// Idle time after which an auto-hiding overlay disappears: ten seconds.
pub const IDLE_NANOS: u64 = 10_000_000_000;

/// What the policy remembers: the last device inventory (gamepad, other
/// external device), the last touch activity, and the gamepad connection
/// generation.
pub struct TouchState {
    pub devices: Option<(bool, bool)>,
    pub last_activity: Option<u64>,
    pub gamepad_connection: u32,
}

pub struct TouchVisibility {
    devices: Option<(bool, bool)>,
    last_activity: Option<u64>,
    gamepad_connection: u32,
}

impl View for TouchVisibility {
    type V = TouchState;

    closed spec fn view(&self) -> TouchState {
        TouchState {
            devices: self.devices,
            last_activity: self.last_activity,
            gamepad_connection: self.gamepad_connection,
        }
    }
}

impl Default for TouchVisibility {
    fn default() -> (r: TouchVisibility)
        ensures
            r@ == (TouchState { devices: None, last_activity: None, gamepad_connection: 0 }),
    {
        TouchVisibility { devices: None, last_activity: None, gamepad_connection: 0 }
    }
}

/// The overlay is shown under `auto_hide` at `now` given the last activity.
pub open spec fn shown(last_activity: Option<u64>, auto_hide: bool, now: u64) -> bool {
    !auto_hide || match last_activity {
        None => true,
        Some(last) => (if now > last { now - last } else { 0 }) < IDLE_NANOS,
    }
}

/// The state after the idle check at `now`: the idle period restarts while
/// auto-hiding is off, a touch is held, or no activity was seen yet.
pub open spec fn idle_updated(s: TouchState, auto_hide: bool, held: bool, now: u64) -> TouchState {
    if !auto_hide || held || s.last_activity is None {
        TouchState { last_activity: Some(now), ..s }
    } else {
        s
    }
}

impl TouchVisibility {
    /// Reconciles the overlay switch with the connected devices: with no
    /// external device the overlay is forced on (restarting the idle period
    /// when that is new); a newly connected gamepad turns it off; otherwise the
    /// user's choice stands.
    pub fn sync_devices(&mut self, gamepad: bool, other: bool, display: &mut bool, now: u64)
        ensures
            final(self)@.devices == Some((gamepad, other)),
            final(self)@.gamepad_connection == old(self)@.gamepad_connection,
            !gamepad && !other ==> *final(display),
            !gamepad && !other && (old(self)@.devices != Some((false, false)) || !*old(display)) ==> final(self)@.last_activity
                == Some(now),
            !(!gamepad && !other && (old(self)@.devices != Some((false, false)) || !*old(display)))
                ==> final(self)@.last_activity == old(self)@.last_activity,
            gamepad && !(old(self)@.devices matches Some((g, _)) && g) ==> !*final(display),
            !(!gamepad && !other) && !(gamepad && !(old(self)@.devices matches Some((g, _)) && g)) ==> *final(display)
                == *old(display),
    {
        if !gamepad && !other {
            if self.devices != Some((false, false)) || !*display {
                self.activity(now);
            }
            *display = true;
        } else if gamepad && !(match self.devices { Some((g, _)) => g, None => false }) {
            *display = false;
        }
        self.devices = Some((gamepad, other));
    }

    /// A gamepad or another external input device was connected at the last sync.
    pub fn has_external_devices(&self) -> (r: bool)
        ensures
            r == (self@.devices matches Some((g, o)) && (g || o)),
    {
        match self.devices {
            Some((gamepad, other)) => gamepad || other,
            None => false,
        }
    }

    /// Records the platform's gamepad connection generation; a new generation
    /// forgets the device inventory, so the next sync treats every gamepad as new.
    pub fn gamepad_connection(&mut self, generation: u32)
        ensures
            final(self)@.gamepad_connection == generation,
            final(self)@.last_activity == old(self)@.last_activity,
            final(self)@.devices == (if old(self)@.gamepad_connection != generation { None } else { old(
                self)@.devices }),
    {
        if self.gamepad_connection != generation {
            self.devices = None;
            self.gamepad_connection = generation;
        }
    }

    /// A gamepad was added: forget the device inventory.
    pub fn sdl_gamepad_added(&mut self)
        ensures
            final(self)@ == (TouchState { devices: None, ..old(self)@ }),
    {
        self.devices = None;
    }

    /// Touch activity at `now` restarts the idle period.
    pub fn activity(&mut self, now: u64)
        ensures
            final(self)@ == (TouchState { last_activity: Some(now), ..old(self)@ }),
    {
        self.last_activity = Some(now);
    }

    /// Returning to the foreground restarts the idle period.
    pub fn resume(&mut self, now: u64)
        ensures
            final(self)@ == (TouchState { last_activity: Some(now), ..old(self)@ }),
    {
        self.activity(now);
    }

    /// Keeps the overlay awake while auto-hiding is off, a touch is held, or
    /// no activity was seen yet.
    pub fn update_idle(&mut self, auto_hide: bool, held: bool, now: u64)
        ensures
            final(self)@ == idle_updated(old(self)@, auto_hide, held, now),
    {
        if !auto_hide || held || self.last_activity.is_none() {
            self.activity(now);
        }
    }

    /// The overlay is drawn: auto-hiding is off, or the last activity was less
    /// than ten seconds before `now`.
    pub fn visible(&self, auto_hide: bool, now: u64) -> (r: bool)
        ensures
            r == shown(self@.last_activity, auto_hide, now),
    {
        !auto_hide || match self.last_activity {
            None => true,
            Some(last) => (if now > last { now - last } else { 0 }) < IDLE_NANOS,
        }
    }
}

/// A touch keeps the overlay shown for the ten seconds that follow it.
pub proof fn law_touch_shows_overlay_for_idle_period(touched: u64, auto_hide: bool, now: u64)
    requires
        touched <= now,
        now - touched < IDLE_NANOS,
    ensures
        shown(Some(touched), auto_hide, now),
{
}

/// Holding a touch control never lets the overlay hide: after the idle
/// check with a touch held, the overlay is shown.
pub proof fn law_held_touch_keeps_overlay(s: TouchState, auto_hide: bool, now: u64)
    ensures
        shown(idle_updated(s, auto_hide, true, now).last_activity, auto_hide, now),
{
}

/// Hiding waits for the full idle period: ten seconds after the last
/// activity an auto-hiding overlay is hidden, not before.
pub proof fn law_overlay_hides_only_after_idle_period(last: u64, now: u64)
    ensures
        shown(Some(last), true, now) == (now <= last || now - last < IDLE_NANOS),
{
}

} // verus!
