//! The per-tick systems around the reaction stage: the lockout timer
//! countdown and the jump and lateral-movement input decisions, plus the
//! fixed stage pipeline that runs one whole simulation tick.

use vstd::prelude::*;

use crate::components::{Busy, DetectorKind, Player, Velocity};
use crate::detection::{
    handle_ground_detection, handle_left_wall_detection, handle_right_wall_detection,
    spec_ground_diag, spec_ground_react_slot, spec_react_slot,
};
use crate::events::CollisionEvent;
use crate::scene::{spec_has_detector, Scene};

verus! {

/// Duration of the lockout a wall jump inserts, in milliseconds.
pub const WALL_JUMP_LOCKOUT_MS: u64 = 250;

/// Horizontal and vertical speed of a wall jump.
pub const WALL_JUMP_SPEED: i32 = 200;

/// Vertical speed of a jump from the ground.
pub const GROUND_JUMP_SPEED: i32 = 250;

/// Horizontal walking speed.
pub const WALK_SPEED: i32 = 100;

/// A lockout after advancing it by `delta_ms` of elapsed time: counted down
/// by the elapsed time, and removed exactly on the tick where its remaining
/// duration would reach or pass zero.
pub open spec fn spec_busy_after(busy: Option<Busy>, delta_ms: u64) -> Option<Busy> {
    match busy {
        None => None,
        Some(b) => if b.remaining_ms <= delta_ms {
            None
        } else {
            Some(Busy { remaining_ms: (b.remaining_ms - delta_ms) as u64 })
        },
    }
}

/// A player slot after the busy-timer system's tick.
pub open spec fn spec_busy_slot(slot: Option<Player>, delta_ms: u64) -> Option<Player> {
    match slot {
        None => None,
        Some(pl) => Some(Player { busy: spec_busy_after(pl.busy, delta_ms), ..pl }),
    }
}

/// Whether this slot's lockout runs out when advanced by `delta_ms`.
pub open spec fn spec_busy_expires(slot: Option<Player>, delta_ms: u64) -> bool {
    match slot {
        None => false,
        Some(pl) => match pl.busy {
            None => false,
            Some(b) => b.remaining_ms <= delta_ms,
        },
    }
}

/// The indices of the player slots whose lockout runs out this tick, in
/// increasing order.
pub open spec fn spec_expired_list(players: Seq<Option<Player>>, delta_ms: u64) -> Seq<usize>
    decreases players.len(),
{
    if players.len() == 0 {
        Seq::empty()
    } else {
        let rest = spec_expired_list(players.drop_last(), delta_ms);
        if spec_busy_expires(players.last(), delta_ms) {
            rest.push((players.len() - 1) as usize)
        } else {
            rest
        }
    }
}

/// The busy-timer system: advances every live player's lockout by the tick's
/// elapsed time and removes a lockout exactly when it reaches or passes
/// zero.  Returns the indices whose lockout was removed this tick, in
/// increasing order.
pub fn handle_busy(scene: &mut Scene, delta_ms: u64) -> (removed: Vec<usize>)
    ensures
        final(scene).players@.len() == old(scene).players@.len(),
        final(scene).detectors == old(scene).detectors,
        final(scene).statics == old(scene).statics,
        forall|p: int|
            0 <= p < old(scene).players@.len() ==> final(scene).players@[p] == spec_busy_slot(
                old(scene).players@[p],
                delta_ms,
            ),
        removed@ == spec_expired_list(old(scene).players@, delta_ms),
{
    let mut removed: Vec<usize> = Vec::new();
    let n = scene.players.len();
    let mut p: usize = 0;
    while p < n
        invariant
            n == scene.players@.len(),
            p <= n,
            scene.detectors == old(scene).detectors,
            scene.statics == old(scene).statics,
            scene.players@.len() == old(scene).players@.len(),
            forall|q: int|
                0 <= q < p ==> scene.players@[q] == spec_busy_slot(
                    old(scene).players@[q],
                    delta_ms,
                ),
            forall|q: int| p <= q < n ==> scene.players@[q] == old(scene).players@[q],
            removed@ == spec_expired_list(old(scene).players@.take(p as int), delta_ms),
        decreases n - p,
    {
        let slot = scene.players[p];
        if let Some(mut pl) = slot {
            if let Some(mut b) = pl.busy {
                b.tick(delta_ms);
                if b.finished() {
                    pl.busy = None;
                    removed.push(p);
                } else {
                    pl.busy = Some(b);
                }
                scene.players[p] = Some(pl);
            }
        }
        proof {
            assert(old(scene).players@.take((p + 1) as int).drop_last() =~= old(
                scene,
            ).players@.take(p as int));
            assert(old(scene).players@.take((p + 1) as int).last() == old(scene).players@[p as int]);
        }
        p = p + 1;
    }
    proof {
        assert(old(scene).players@.take(n as int) =~= old(scene).players@);
    }
    removed
}

/// The lockout timer counts down strictly: advancing a live lockout by a
/// positive elapsed time either removes it — exactly when the remaining
/// duration would reach or pass zero, never before — or leaves it shorter by
/// exactly the elapsed time.
pub proof fn lemma_busy_timer_monotonic(busy: Busy, delta_ms: u64)
    ensures
        busy.remaining_ms <= delta_ms ==> spec_busy_after(Some(busy), delta_ms) is None,
        busy.remaining_ms > delta_ms ==> spec_busy_after(Some(busy), delta_ms) == Some(
            Busy { remaining_ms: (busy.remaining_ms - delta_ms) as u64 },
        ),
        delta_ms > 0 && busy.remaining_ms > delta_ms ==> ((busy.remaining_ms - delta_ms) as u64)
            < busy.remaining_ms,
{
}

/// The jump decision for one player not carrying a lockout: held jump input
/// turns the contact flags into a velocity change, the wall cases winning
/// over the ground case on the horizontal axis and the ground case on the
/// vertical one, and a wall jump inserts a fresh lockout.
pub open spec fn spec_jump(pl: Player, jump_pressed: bool) -> Player {
    if !jump_pressed {
        pl
    } else {
        let x: i32 = if pl.flags.right_wall {
            (-WALL_JUMP_SPEED) as i32
        } else if pl.flags.left_wall {
            WALL_JUMP_SPEED
        } else {
            0
        };
        let y: i32 = if pl.flags.grounded {
            GROUND_JUMP_SPEED
        } else if pl.flags.left_wall || pl.flags.right_wall {
            WALL_JUMP_SPEED
        } else {
            0
        };
        let vx: i32 = if x != 0 {
            x
        } else {
            pl.velocity.x
        };
        let vy: i32 = if y != 0 {
            y
        } else {
            pl.velocity.y
        };
        let busy = if pl.flags.left_wall || pl.flags.right_wall {
            Some(Busy { remaining_ms: WALL_JUMP_LOCKOUT_MS })
        } else {
            pl.busy
        };
        Player { velocity: Velocity { x: vx, y: vy }, flags: pl.flags, busy }
    }
}

/// A player slot after the jump system: a live player carrying a lockout is
/// left untouched, everyone else gets the jump decision.
pub open spec fn spec_jump_slot(slot: Option<Player>, jump_pressed: bool) -> Option<Player> {
    match slot {
        None => None,
        Some(pl) => if pl.busy is Some {
            Some(pl)
        } else {
            Some(spec_jump(pl, jump_pressed))
        },
    }
}

/// The jump decision for one player, evaluated in the order left wall, right
/// wall, grounded, later conditions overwriting earlier ones.  A component
/// that resolves to zero leaves that velocity axis untouched, so a pure
/// ground jump keeps the horizontal speed; either wall flag inserts a fresh
/// lockout.  No wall and no ground means the input has no effect.
pub fn jump_decision(pl: &Player, jump_pressed: bool) -> (r: Player)
    requires
        pl.busy is None,
    ensures
        r == spec_jump(*pl, jump_pressed),
{
    let mut p = *pl;
    if jump_pressed {
        let mut x: i32 = 0;
        let mut y: i32 = 0;
        if p.flags.left_wall {
            x = WALL_JUMP_SPEED;
            y = WALL_JUMP_SPEED;
        }
        if p.flags.right_wall {
            x = -WALL_JUMP_SPEED;
            y = WALL_JUMP_SPEED;
        }
        if p.flags.grounded {
            y = GROUND_JUMP_SPEED;
        }
        if x != 0 {
            p.velocity.x = x;
        }
        if y != 0 {
            p.velocity.y = y;
        }
        if p.flags.left_wall || p.flags.right_wall {
            p.busy = Some(Busy::new(WALL_JUMP_LOCKOUT_MS));
        }
    }
    p
}

/// The jump system: applies the jump decision to every live player not
/// carrying a lockout; a player whose lockout is still active is left
/// untouched.
pub fn jump(scene: &mut Scene, jump_pressed: bool)
    ensures
        final(scene).players@.len() == old(scene).players@.len(),
        final(scene).detectors == old(scene).detectors,
        final(scene).statics == old(scene).statics,
        forall|p: int|
            0 <= p < old(scene).players@.len() ==> final(scene).players@[p] == spec_jump_slot(
                old(scene).players@[p],
                jump_pressed,
            ),
{
    let n = scene.players.len();
    let mut p: usize = 0;
    while p < n
        invariant
            n == scene.players@.len(),
            p <= n,
            scene.detectors == old(scene).detectors,
            scene.statics == old(scene).statics,
            scene.players@.len() == old(scene).players@.len(),
            forall|q: int|
                0 <= q < p ==> scene.players@[q] == spec_jump_slot(
                    old(scene).players@[q],
                    jump_pressed,
                ),
            forall|q: int| p <= q < n ==> scene.players@[q] == old(scene).players@[q],
        decreases n - p,
    {
        let slot = scene.players[p];
        if let Some(pl) = slot {
            if pl.busy.is_none() {
                scene.players[p] = Some(jump_decision(&pl, jump_pressed));
            }
        }
        p = p + 1;
    }
}

/// A jump input while the lockout is active changes nothing: no velocity
/// change and no new lockout insertion.
pub proof fn lemma_jump_while_busy_is_noop(pl: Player, jump_pressed: bool)
    requires
        pl.busy is Some,
    ensures
        spec_jump_slot(Some(pl), jump_pressed) == Some(pl),
{
}

/// The lateral-movement decision for one player not carrying a lockout.
/// Held left input asks for the negative walking speed unless the touching-
/// right-wall flag blocks it, and held right input for the positive one
/// unless the touching-left-wall flag blocks it — the block is cross-wired
/// deliberately.  Exactly one unblocked side is a net resolution and sets
/// the horizontal velocity; neither side, or both at once, resolves to zero
/// and leaves the velocity untouched: there is no automatic deceleration.
pub open spec fn spec_movement(pl: Player, left_held: bool, right_held: bool) -> Player {
    let left_free = left_held && !pl.flags.right_wall;
    let right_free = right_held && !pl.flags.left_wall;
    let x: i32 = if right_free && !left_free {
        WALK_SPEED
    } else if left_free && !right_free {
        (-WALK_SPEED) as i32
    } else {
        0
    };
    if x != 0 {
        Player { velocity: Velocity { x, y: pl.velocity.y }, ..pl }
    } else {
        pl
    }
}

/// A player slot after the movement system: a live player carrying a lockout
/// is left untouched, everyone else gets the movement decision.
pub open spec fn spec_movement_slot(slot: Option<Player>, left_held: bool, right_held: bool) -> Option<Player> {
    match slot {
        None => None,
        Some(pl) => if pl.busy is Some {
            Some(pl)
        } else {
            Some(spec_movement(pl, left_held, right_held))
        },
    }
}

/// The lateral-movement decision for one player.
pub fn movement_decision(pl: &Player, left_held: bool, right_held: bool) -> (r: Player)
    requires
        pl.busy is None,
    ensures
        r == spec_movement(*pl, left_held, right_held),
{
    let mut p = *pl;
    let left_free = left_held && !p.flags.right_wall;
    let right_free = right_held && !p.flags.left_wall;
    let mut x: i32 = 0;
    if left_free && !right_free {
        x = -WALK_SPEED;
    }
    if right_free && !left_free {
        x = WALK_SPEED;
    }
    if x != 0 {
        p.velocity.x = x;
    }
    p
}

/// The movement system: applies the lateral-movement decision to every live
/// player not carrying a lockout.
pub fn movement(scene: &mut Scene, left_held: bool, right_held: bool)
    ensures
        final(scene).players@.len() == old(scene).players@.len(),
        final(scene).detectors == old(scene).detectors,
        final(scene).statics == old(scene).statics,
        forall|p: int|
            0 <= p < old(scene).players@.len() ==> final(scene).players@[p] == spec_movement_slot(
                old(scene).players@[p],
                left_held,
                right_held,
            ),
{
    let n = scene.players.len();
    let mut p: usize = 0;
    while p < n
        invariant
            n == scene.players@.len(),
            p <= n,
            scene.detectors == old(scene).detectors,
            scene.statics == old(scene).statics,
            scene.players@.len() == old(scene).players@.len(),
            forall|q: int|
                0 <= q < p ==> scene.players@[q] == spec_movement_slot(
                    old(scene).players@[q],
                    left_held,
                    right_held,
                ),
            forall|q: int| p <= q < n ==> scene.players@[q] == old(scene).players@[q],
        decreases n - p,
    {
        let slot = scene.players[p];
        if let Some(pl) = slot {
            if pl.busy.is_none() {
                scene.players[p] = Some(movement_decision(&pl, left_held, right_held));
            }
        }
        p = p + 1;
    }
}

/// One player slot carried through a whole tick's fixed stage order:
/// reaction (ground, left wall, right wall), then the timer tick, then the
/// jump decision, then the movement decision.
pub open spec fn spec_tick_slot(
    slot: Option<Player>,
    ground_target: bool,
    left_target: bool,
    right_target: bool,
    events: Seq<CollisionEvent>,
    left_held: bool,
    right_held: bool,
    jump_pressed: bool,
    delta_ms: u64,
) -> Option<Player> {
    let after_ground = spec_ground_react_slot(slot, ground_target, events);
    let after_left = spec_react_slot(after_ground, left_target, events, DetectorKind::LeftWall);
    let after_right = spec_react_slot(after_left, right_target, events, DetectorKind::RightWall);
    let after_busy = spec_busy_slot(after_right, delta_ms);
    let after_jump = spec_jump_slot(after_busy, jump_pressed);
    spec_movement_slot(after_jump, left_held, right_held)
}

/// One whole simulation tick in the documented stage order: classification
/// and reaction first (so the decisions read this tick's contact flags),
/// then the lockout countdown (so a lockout expiring this tick frees the
/// decisions this same tick), then the jump and movement decisions (so a
/// lockout a wall jump inserts is not counted down before the next tick).
/// Returns the ground handler's diagnostic normals.
pub fn tick(
    scene: &mut Scene,
    events: &Vec<CollisionEvent>,
    left_held: bool,
    right_held: bool,
    jump_pressed: bool,
    delta_ms: u64,
) -> (diag: Vec<Vec<(i32, i32)>>)
    ensures
        final(scene).players@.len() == old(scene).players@.len(),
        final(scene).detectors == old(scene).detectors,
        final(scene).statics == old(scene).statics,
        forall|p: int|
            0 <= p < old(scene).players@.len() ==> final(scene).players@[p] == spec_tick_slot(
                old(scene).players@[p],
                spec_has_detector(old(scene).detectors@, DetectorKind::Ground, p),
                spec_has_detector(old(scene).detectors@, DetectorKind::LeftWall, p),
                spec_has_detector(old(scene).detectors@, DetectorKind::RightWall, p),
                events@,
                left_held,
                right_held,
                jump_pressed,
                delta_ms,
            ),
        diag@.len() == spec_ground_diag(events@).len(),
        forall|m: int|
            0 <= m < diag@.len() ==> diag@[m]@ == spec_ground_diag(events@)[m],
{
    let diag = handle_ground_detection(scene, events);
    handle_left_wall_detection(scene, events);
    handle_right_wall_detection(scene, events);
    let _removed = handle_busy(scene, delta_ms);
    jump(scene, jump_pressed);
    movement(scene, left_held, right_held);
    diag
}

/// A lockout that a tick does not run out blocks both decision stages of
/// that tick, whatever the events and inputs: the velocity is untouched and
/// the lockout merely counts down.  In particular, a lockout inserted by a
/// wall jump in one tick is still observed as active by the decisions of
/// the next tick, for any elapsed time short of its remaining duration.
pub proof fn lemma_active_lockout_blocks_decisions(
    pl: Player,
    b: Busy,
    ground_target: bool,
    left_target: bool,
    right_target: bool,
    events: Seq<CollisionEvent>,
    left_held: bool,
    right_held: bool,
    jump_pressed: bool,
    delta_ms: u64,
)
    requires
        pl.busy == Some(b),
        b.remaining_ms > delta_ms,
    ensures
        spec_tick_slot(
            Some(pl),
            ground_target,
            left_target,
            right_target,
            events,
            left_held,
            right_held,
            jump_pressed,
            delta_ms,
        ) matches Some(q) && q.velocity == pl.velocity && q.busy == Some(
            Busy { remaining_ms: (b.remaining_ms - delta_ms) as u64 },
        ),
{
}

} // verus!

