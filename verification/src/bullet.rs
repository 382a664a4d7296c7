use vstd::prelude::*;
use crate::jetpack::spec_drain;

verus! {

/// How long a bullet lives after it is fired: three seconds, in
/// milliseconds.
pub const BULLET_LIFETIME_MILLIS: u32 = 3000;

/// How fast a bullet flies: twenty metres per second, in millimetres per
/// millisecond.
pub const BULLET_SPEED_MM_PER_MILLI: u32 = 20;

/// A bullet in flight.
///
/// Its lifetime is measured in whole milliseconds and its speed in
/// millimetres per millisecond, so each frame update is exact integer
/// arithmetic. The facing direction it flies along lives with the
/// caller's transform.
#[derive(Clone, Copy, Debug, PartialEq, Eq, Structural)]
pub struct Bullet {
    /// Time left before the bullet expires, in milliseconds.
    pub lifetime_millis: u32,
    /// Speed, in millimetres per millisecond.
    pub speed_mm_per_milli: u32,
}

/// What one frame does to a bullet.
#[derive(Clone, Copy, Debug, PartialEq, Eq, Structural)]
pub enum BulletStep {
    /// Its lifetime ran out: remove it from the scene.
    Expire,
    /// It keeps flying: move it this many millimetres along its facing
    /// direction.
    Advance { distance_mm: u64 },
}

impl Bullet {
    /// A bullet as fired: full lifetime, standard speed.
    pub fn new() -> (b: Bullet)
        ensures
            b == (Bullet {
                lifetime_millis: BULLET_LIFETIME_MILLIS,
                speed_mm_per_milli: BULLET_SPEED_MM_PER_MILLI,
            }),
    {
        Bullet { lifetime_millis: BULLET_LIFETIME_MILLIS, speed_mm_per_milli: BULLET_SPEED_MM_PER_MILLI }
    }

    /// One frame of flight, given the frame's `delta_millis`.
    ///
    /// The frame's time is taken from the lifetime, stopping at zero. A
    /// bullet whose lifetime the frame used up expires; any other flies
    /// on by speed times the frame's time.
    pub fn update(&mut self, delta_millis: u32) -> (step: BulletStep)
        ensures
            final(self).lifetime_millis == spec_drain(old(self).lifetime_millis, delta_millis),
            final(self).speed_mm_per_milli == old(self).speed_mm_per_milli,
            old(self).lifetime_millis <= delta_millis ==> step == BulletStep::Expire,
            old(self).lifetime_millis > delta_millis ==> step == (BulletStep::Advance {
                distance_mm: (old(self).speed_mm_per_milli * delta_millis) as u64,
            }),
    {
        if self.lifetime_millis <= delta_millis {
            self.lifetime_millis = 0;
            BulletStep::Expire
        } else {
            self.lifetime_millis = self.lifetime_millis - delta_millis;
            let speed: u64 = self.speed_mm_per_milli as u64;
            let delta: u64 = delta_millis as u64;
            proof {
                assert(speed * delta <= 0xffff_ffff * 0xffff_ffff) by (nonlinear_arith)
                    requires
                        speed <= 0xffff_ffff,
                        delta <= 0xffff_ffff,
                ;
            }
            BulletStep::Advance { distance_mm: speed * delta }
        }
    }
}

} // verus!
