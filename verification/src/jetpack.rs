use vstd::prelude::*;

verus! {

/// Fuel the jetpack starts with, which is also its capacity: two seconds
/// of burn, in milliseconds.
pub const START_FUEL_MILLIS: u32 = 2000;

/// How long the jetpack must sit idle after its last burn before fuel
/// starts to come back, in milliseconds.
pub const RECHARGE_DELAY_MILLIS: u64 = 2000;

/// Per-player jetpack state.
///
/// Fuel and the game clock are measured in whole milliseconds, so each
/// frame update is exact integer arithmetic.
#[derive(Clone, Copy, Debug, PartialEq, Eq, Structural)]
pub struct Jetpack {
    /// Remaining burn time, in milliseconds.
    pub fuel_millis: u32,
    /// Capacity: `fuel_millis` never exceeds this.
    pub max_fuel_millis: u32,
    /// True while the jetpack burned during the latest movement update.
    pub is_active: bool,
    /// Game-clock reading at the latest burn, in milliseconds.
    pub last_used_millis: u64,
}

/// Which movement keys are held during a frame.
#[derive(Clone, Copy, Debug, PartialEq, Eq, Structural)]
pub struct KeyState {
    /// Forward (towards negative z).
    pub forward: bool,
    /// Backward (towards positive z).
    pub back: bool,
    /// Left (towards negative x).
    pub left: bool,
    /// Right (towards positive x).
    pub right: bool,
    /// The jetpack key.
    pub thrust: bool,
}

/// The movement command one frame's keys and jetpack state ask for.
///
/// Directions are unnormalised integer vectors on the x/z ground plane
/// (y points up); the caller scales or normalises them as its physics
/// layer expects.
#[derive(Clone, Copy, Debug, PartialEq, Eq, Structural)]
pub enum MoveCommand {
    /// Burn the jetpack: dash along `(x, y, z)`.
    Dash { x: i32, y: i32, z: i32 },
    /// Walk along `(x, z)`; both zero means stand still.
    Walk { x: i32, z: i32 },
}

/// One axis of the held keys: `-1`, `0` or `1`.
pub open spec fn spec_axis(neg: bool, pos: bool) -> int {
    (if pos { 1int } else { 0int }) - (if neg { 1int } else { 0int })
}

/// The ground-plane direction the held keys ask for.
pub open spec fn spec_direction(keys: KeyState) -> (int, int) {
    (spec_axis(keys.left, keys.right), spec_axis(keys.forward, keys.back))
}

/// The held keys as a ground-plane direction: right minus left on x,
/// back minus forward on z.
pub fn movement_direction(keys: KeyState) -> (d: (i32, i32))
    ensures
        (d.0 as int, d.1 as int) == spec_direction(keys),
{
    let mut x: i32 = 0;
    let mut z: i32 = 0;
    if keys.forward {
        z = z - 1;
    }
    if keys.back {
        z = z + 1;
    }
    if keys.left {
        x = x - 1;
    }
    if keys.right {
        x = x + 1;
    }
    (x, z)
}

/// `amount` taken from `fuel`, stopping at empty.
pub open spec fn spec_drain(fuel: u32, amount: u32) -> u32 {
    if fuel >= amount {
        (fuel - amount) as u32
    } else {
        0
    }
}

/// `amount` added to `fuel`, stopping at `cap`.
pub open spec fn spec_refill(fuel: u32, amount: u32, cap: u32) -> u32 {
    if fuel + amount >= cap {
        cap
    } else {
        (fuel + amount) as u32
    }
}

impl Jetpack {
    /// A jetpack is well formed when its fuel does not exceed its capacity.
    pub open spec fn wf(self) -> bool {
        self.fuel_millis <= self.max_fuel_millis
    }

    /// The jetpack fires when its key is held and there is fuel left.
    pub open spec fn spec_fires(self, keys: KeyState) -> bool {
        keys.thrust && self.fuel_millis > 0
    }

    /// The dash direction while the jetpack fires: along the held keys,
    /// or straight up when none is held.
    pub open spec fn spec_dash_command(keys: KeyState) -> MoveCommand {
        if spec_direction(keys) == (0int, 0int) {
            MoveCommand::Dash { x: 0, y: 1, z: 0 }
        } else {
            MoveCommand::Dash {
                x: spec_direction(keys).0 as i32,
                y: 0,
                z: spec_direction(keys).1 as i32,
            }
        }
    }

    /// One movement update, given the held keys, the game clock
    /// `now_millis` and the frame's `delta_millis`.
    ///
    /// When the jetpack key is held and fuel remains, the jetpack burns:
    /// the frame's time is drained from the fuel (stopping at empty), the
    /// burn is stamped with the clock, and the command is a dash — along
    /// the held direction, or straight up when no key is held. Otherwise
    /// the jetpack is off and the command is to walk along the held
    /// direction.
    pub fn movement_update(&mut self, keys: KeyState, now_millis: u64, delta_millis: u32) -> (cmd:
        MoveCommand)
        requires
            old(self).wf(),
        ensures
            final(self).wf(),
            final(self).max_fuel_millis == old(self).max_fuel_millis,
            old(self).spec_fires(keys) ==> {
                &&& final(self).is_active
                &&& final(self).fuel_millis == spec_drain(old(self).fuel_millis, delta_millis)
                &&& final(self).last_used_millis == now_millis
                &&& cmd == Jetpack::spec_dash_command(keys)
            },
            !old(self).spec_fires(keys) ==> {
                &&& !final(self).is_active
                &&& final(self).fuel_millis == old(self).fuel_millis
                &&& final(self).last_used_millis == old(self).last_used_millis
                &&& cmd == (MoveCommand::Walk {
                    x: spec_direction(keys).0 as i32,
                    z: spec_direction(keys).1 as i32,
                })
            },
    {
        let (x, z) = movement_direction(keys);
        if keys.thrust && self.fuel_millis > 0 {
            self.is_active = true;
            self.fuel_millis = if self.fuel_millis >= delta_millis {
                self.fuel_millis - delta_millis
            } else {
                0
            };
            self.last_used_millis = now_millis;
            if x == 0 && z == 0 {
                MoveCommand::Dash { x: 0, y: 1, z: 0 }
            } else {
                MoveCommand::Dash { x, y: 0, z }
            }
        } else {
            self.is_active = false;
            MoveCommand::Walk { x, z }
        }
    }

    /// One recharge update, given the game clock `now_millis` and the
    /// frame's `delta_millis`.
    ///
    /// While the jetpack is off and its last burn lies more than the
    /// recharge delay in the past, the frame's time is added back to the
    /// fuel, stopping at capacity; otherwise nothing changes. The clock
    /// never runs backwards past the last burn, so `now_millis` is at
    /// least `last_used_millis`.
    pub fn recharge_update(&mut self, now_millis: u64, delta_millis: u32)
        requires
            old(self).wf(),
            old(self).last_used_millis <= now_millis,
        ensures
            final(self).wf(),
            final(self).max_fuel_millis == old(self).max_fuel_millis,
            final(self).is_active == old(self).is_active,
            final(self).last_used_millis == old(self).last_used_millis,
            old(self).spec_recharging(now_millis) ==> final(self).fuel_millis == spec_refill(
                old(self).fuel_millis,
                delta_millis,
                old(self).max_fuel_millis,
            ),
            !old(self).spec_recharging(now_millis) ==> final(self).fuel_millis == old(
                self,
            ).fuel_millis,
    {
        if !self.is_active && now_millis - self.last_used_millis > RECHARGE_DELAY_MILLIS {
            let refilled: u64 = self.fuel_millis as u64 + delta_millis as u64;
            self.fuel_millis = if refilled >= self.max_fuel_millis as u64 {
                self.max_fuel_millis
            } else {
                refilled as u32
            };
        }
    }

    /// Fuel comes back while the jetpack is off and its last burn lies
    /// more than the recharge delay before `now_millis`.
    pub open spec fn spec_recharging(self, now_millis: u64) -> bool {
        !self.is_active && now_millis - self.last_used_millis > RECHARGE_DELAY_MILLIS
    }
}

impl Default for Jetpack {
    /// A fresh jetpack: full tank, engine off, never yet used.
    fn default() -> (j: Jetpack)
        ensures
            j == (Jetpack {
                fuel_millis: START_FUEL_MILLIS,
                max_fuel_millis: START_FUEL_MILLIS,
                is_active: false,
                last_used_millis: 0,
            }),
            j.wf(),
    {
        Jetpack {
            fuel_millis: START_FUEL_MILLIS,
            max_fuel_millis: START_FUEL_MILLIS,
            is_active: false,
            last_used_millis: 0,
        }
    }
}

} // verus!
