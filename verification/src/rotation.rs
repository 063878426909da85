//! The rotation step: every tick, each entity tagged as rotating turns about
//! the vertical axis by the elapsed time, giving a frame-rate-independent
//! angular velocity of one radian-per-second scaled unit.
//!
//! An orientation about one axis is a point on a circle, so it is carried as
//! a binary fraction of a full turn: the full circle is two to the
//! thirty-second units, and reduction modulo a full turn — modulo two pi for
//! an angle in radians — is exactly the wrap-around of unsigned addition.
//! The host converts elapsed seconds to turn units in its own floating-point
//! arithmetic before the step runs.

use vstd::prelude::*;

verus! {

/// An entity tagged to rotate each tick, reduced to what the step reads and
/// writes: its yaw as a binary fraction of a full turn.
#[derive(Clone, Copy, PartialEq, Eq, Structural, Debug)]
pub struct RotatingEntity {
    pub yaw: u32,
}

/// The yaw after one tick: the previous yaw plus the elapsed turn units,
/// reduced modulo a full turn.
pub open spec fn yaw_after(yaw: u32, elapsed: u32) -> u32 {
    if yaw + elapsed <= u32::MAX {
        (yaw + elapsed) as u32
    } else {
        (yaw + elapsed - 0x1_0000_0000) as u32
    }
}

/// One tick for one rotating entity: its yaw advances by the elapsed turn
/// units, modulo a full turn.
pub fn rotate_tick(entity: &mut RotatingEntity, elapsed: u32)
    ensures
        final(entity).yaw == yaw_after(old(entity).yaw, elapsed),
{
    entity.yaw = entity.yaw.wrapping_add(elapsed);
}

/// One tick for every rotating entity.
pub fn rotate_all(entities: &mut Vec<RotatingEntity>, elapsed: u32)
    ensures
        final(entities)@.len() == old(entities)@.len(),
        forall|i: int|
            0 <= i < old(entities)@.len() ==> final(entities)@[i].yaw == yaw_after(
                #[trigger] old(entities)@[i].yaw,
                elapsed,
            ),
{
    let n: usize = entities.len();
    let mut i: usize = 0;
    while i < n
        invariant
            n == old(entities)@.len(),
            i <= n,
            entities@.len() == n,
            forall|j: int|
                0 <= j < i ==> entities@[j].yaw == yaw_after(
                    #[trigger] old(entities)@[j].yaw,
                    elapsed,
                ),
            forall|j: int| i <= j < n ==> entities@[j] == old(entities)@[j],
        decreases n - i,
    {
        let turned: RotatingEntity = RotatingEntity {
            yaw: entities[i].yaw.wrapping_add(elapsed),
        };
        entities[i] = turned;
        i = i + 1;
    }
}

/// Law: the angular velocity is frame-rate independent. Splitting an elapsed
/// time across two ticks leaves the entity exactly where one tick with the
/// whole elapsed time would: the yaw depends on the total elapsed time alone,
/// not on how the scheduler divides it into frames.
pub proof fn lemma_rotation_rate_independent(yaw: u32, first: u32, second: u32)
    ensures
        yaw_after(yaw_after(yaw, first), second) == yaw_after(yaw, yaw_after(first, second)),
{
}

/// Law: a whole number of full turns is the identity — the reduction is
/// exactly modulo a full turn.
pub proof fn lemma_rotation_full_turn(yaw: u32)
    ensures
        yaw_after(yaw, 0) == yaw,
        forall|elapsed: u32| #[trigger] yaw_after(yaw, elapsed) == ((yaw + elapsed) % 0x1_0000_0000),
{
}

} // verus!
