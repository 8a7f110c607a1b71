//! Collision-event classification and the contact reaction systems.
//!
//! Each tick the physics engine hands over a queue of collision events.  For
//! each detector kind the matching events are recognised by testing both
//! orderings of the event's two layer pairings (the engine does not promise
//! which side is "self"), and the corresponding contact flag is inserted or
//! removed on the *parent* of every detector of that kind.  Events are
//! processed in arrival order; a reaction aimed at a despawned parent is a
//! silent no-op.

use vstd::prelude::*;

use crate::components::{
    spec_detector_layer, spec_has_flag, spec_set_flag, DetectorKind, Player,
};
use crate::events::{
    spec_event_layers, spec_event_started, CollisionEvent,
};
use crate::layers::{spec_contains_group, CollisionLayers, Layer};
use crate::scene::{spec_has_detector, Scene};

verus! {

/// Whether `layers` belongs to the world group.
pub open spec fn spec_is_world(layers: CollisionLayers) -> bool {
    spec_contains_group(layers, Layer::World)
}

/// Whether `layers` belongs to the player group.
pub open spec fn spec_is_player(layers: CollisionLayers) -> bool {
    spec_contains_group(layers, Layer::Player)
}

/// Whether `layers` belongs to the group of detectors of `kind`.
pub open spec fn spec_is_detector(layers: CollisionLayers, kind: DetectorKind) -> bool {
    spec_contains_group(layers, spec_detector_layer(kind))
}

/// Whether `layers` belongs to the world group.
pub fn is_world(layers: CollisionLayers) -> (r: bool)
    ensures
        r == spec_is_world(layers),
{
    layers.contains_group(Layer::World)
}

/// Whether `layers` belongs to the player group.
pub fn is_player(layers: CollisionLayers) -> (r: bool)
    ensures
        r == spec_is_player(layers),
{
    layers.contains_group(Layer::Player)
}

/// Whether `layers` belongs to the ground-detector group.
pub fn is_ground_detector(layers: CollisionLayers) -> (r: bool)
    ensures
        r == spec_is_detector(layers, DetectorKind::Ground),
{
    layers.contains_group(Layer::GroundDetector)
}

/// Whether `layers` belongs to the left-wall-detector group.
pub fn is_left_wall_detector(layers: CollisionLayers) -> (r: bool)
    ensures
        r == spec_is_detector(layers, DetectorKind::LeftWall),
{
    layers.contains_group(Layer::LeftWallDetector)
}

/// Whether `layers` belongs to the right-wall-detector group.
pub fn is_right_wall_detector(layers: CollisionLayers) -> (r: bool)
    ensures
        r == spec_is_detector(layers, DetectorKind::RightWall),
{
    layers.contains_group(Layer::RightWallDetector)
}

/// The pairing-order-symmetric match: one side is a detector of `kind`, the
/// other belongs to the world, in either order.
pub open spec fn spec_pair_matches(l1: CollisionLayers, l2: CollisionLayers, kind: DetectorKind) -> bool {
    (spec_is_detector(l1, kind) && spec_is_world(l2)) || (spec_is_detector(l2, kind)
        && spec_is_world(l1))
}

/// Tests whether the pair (`l1`, `l2`) matches detector `kind` against the
/// world, in either ordering.
pub fn pair_matches(l1: CollisionLayers, l2: CollisionLayers, kind: DetectorKind) -> (r: bool)
    ensures
        r == spec_pair_matches(l1, l2, kind),
{
    let detector = match kind {
        DetectorKind::Ground => Layer::GroundDetector,
        DetectorKind::LeftWall => Layer::LeftWallDetector,
        DetectorKind::RightWall => Layer::RightWallDetector,
    };
    (l1.contains_group(detector) && is_world(l2)) || (l2.contains_group(detector) && is_world(l1))
}

/// A classified logical contact signal: which detector kind matched, whether
/// the contact began or ended, and the detector's parent entity.
#[derive(Clone, Copy, Debug, PartialEq)]
pub struct Signal {
    pub kind: DetectorKind,
    pub started: bool,
    pub parent: usize,
}

/// The signal classification of one event against one detector: a signal
/// exactly when the event's pair matches the detector's kind in either
/// ordering, carrying the event's direction and the detector's parent.
pub open spec fn spec_classify(event: CollisionEvent, detector: crate::components::Detector) -> Option<Signal> {
    let ls = spec_event_layers(event);
    if spec_pair_matches(ls.0, ls.1, detector.kind) {
        Some(Signal { kind: detector.kind, started: spec_event_started(event), parent: detector.parent })
    } else {
        None
    }
}

/// Classifies one collision event against one live detector, emitting at
/// most one logical signal.
pub fn classify_event(event: &CollisionEvent, detector: &crate::components::Detector) -> (r: Option<Signal>)
    ensures
        r == spec_classify(*event, *detector),
{
    let ls = event.collision_layers();
    if pair_matches(ls.0, ls.1, detector.kind) {
        Some(Signal { kind: detector.kind, started: event.is_started(), parent: detector.parent })
    } else {
        None
    }
}

/// One reaction step of the pairing-order-symmetric handlers: a matching
/// started event sets the flag, a matching stopped event clears it, any
/// other event leaves it alone.
pub open spec fn spec_flag_step(flag: bool, event: CollisionEvent, kind: DetectorKind) -> bool {
    let ls = spec_event_layers(event);
    if spec_pair_matches(ls.0, ls.1, kind) {
        spec_event_started(event)
    } else {
        flag
    }
}

/// The flag after the pairing-order-symmetric handler drains `events` in
/// arrival order, starting from `flag`.
pub open spec fn spec_flag_fold(flag: bool, events: Seq<CollisionEvent>, kind: DetectorKind) -> bool
    decreases events.len(),
{
    if events.len() == 0 {
        flag
    } else {
        spec_flag_step(spec_flag_fold(flag, events.drop_last(), kind), events.last(), kind)
    }
}

/// One reaction step of the ground handler, which deliberately reacts to a
/// beginning contact only when the detector is the first-listed participant:
/// the mirrored ordering of a started event leaves the flag alone, while a
/// stopped event clears it in either ordering.
pub open spec fn spec_ground_step(flag: bool, event: CollisionEvent) -> bool {
    let ls = spec_event_layers(event);
    if spec_event_started(event) {
        if spec_is_detector(ls.0, DetectorKind::Ground) && spec_is_world(ls.1) {
            true
        } else {
            flag
        }
    } else {
        if spec_pair_matches(ls.0, ls.1, DetectorKind::Ground) {
            false
        } else {
            flag
        }
    }
}

/// The grounded flag after the asymmetric ground handler drains `events` in
/// arrival order, starting from `flag`.
pub open spec fn spec_ground_fold(flag: bool, events: Seq<CollisionEvent>) -> bool
    decreases events.len(),
{
    if events.len() == 0 {
        flag
    } else {
        spec_ground_step(spec_ground_fold(flag, events.drop_last()), events.last())
    }
}

/// A player slot after the flag of `kind` has been set to `value` on it,
/// provided it is targeted by a detector and still alive.
pub open spec fn spec_apply_slot(
    slot: Option<Player>,
    targeted: bool,
    kind: DetectorKind,
    value: bool,
) -> Option<Player> {
    match slot {
        None => None,
        Some(pl) => if targeted {
            Some(Player { flags: spec_set_flag(pl.flags, kind, value), ..pl })
        } else {
            Some(pl)
        },
    }
}

/// A player slot after the pairing-order-symmetric handler of `kind` has
/// drained `events`: targeted, live players carry the folded flag, everyone
/// else is untouched.
pub open spec fn spec_react_slot(
    slot: Option<Player>,
    targeted: bool,
    events: Seq<CollisionEvent>,
    kind: DetectorKind,
) -> Option<Player> {
    match slot {
        None => None,
        Some(pl) => if targeted {
            Some(
                Player {
                    flags: spec_set_flag(
                        pl.flags,
                        kind,
                        spec_flag_fold(spec_has_flag(pl.flags, kind), events, kind),
                    ),
                    ..pl
                },
            )
        } else {
            Some(pl)
        },
    }
}

/// A player slot after the asymmetric ground handler has drained `events`.
pub open spec fn spec_ground_react_slot(
    slot: Option<Player>,
    targeted: bool,
    events: Seq<CollisionEvent>,
) -> Option<Player> {
    match slot {
        None => None,
        Some(pl) => if targeted {
            Some(
                Player {
                    flags: spec_set_flag(
                        pl.flags,
                        DetectorKind::Ground,
                        spec_ground_fold(pl.flags.grounded, events),
                    ),
                    ..pl
                },
            )
        } else {
            Some(pl)
        },
    }
}

/// Appending a detector to a detector list targets a parent exactly when the
/// list already did or the new detector does.
proof fn lemma_has_detector_push(
    detectors: Seq<crate::components::Detector>,
    d: crate::components::Detector,
    kind: DetectorKind,
    parent: int,
)
    ensures
        spec_has_detector(detectors.push(d), kind, parent) == (spec_has_detector(
            detectors,
            kind,
            parent,
        ) || (d.kind == kind && d.parent == parent)),
{
    let pushed = detectors.push(d);
    if spec_has_detector(pushed, kind, parent) {
        let i = choose|i: int|
            0 <= i < pushed.len() && pushed[i].kind == kind && pushed[i].parent == parent;
        if i < detectors.len() {
            assert(detectors[i] == pushed[i]);
        } else {
            assert(pushed[i] == d);
        }
    }
    if spec_has_detector(detectors, kind, parent) {
        let i = choose|i: int|
            0 <= i < detectors.len() && detectors[i].kind == kind && detectors[i].parent == parent;
        assert(pushed[i] == detectors[i]);
    }
    if d.kind == kind && d.parent == parent {
        assert(pushed[detectors.len() as int] == d);
    }
}

/// Sets the flag of `kind` to `value` on the parent of every live detector
/// of that kind; a parent slot that is out of range or despawned is left
/// alone.
fn apply_flag_to_targets(scene: &mut Scene, kind: DetectorKind, value: bool)
    ensures
        final(scene).players@.len() == old(scene).players@.len(),
        final(scene).detectors == old(scene).detectors,
        final(scene).statics == old(scene).statics,
        forall|p: int|
            0 <= p < old(scene).players@.len() ==> final(scene).players@[p] == spec_apply_slot(
                old(scene).players@[p],
                spec_has_detector(old(scene).detectors@, kind, p),
                kind,
                value,
            ),
{
    let n = scene.detectors.len();
    let mut j: usize = 0;
    while j < n
        invariant
            n == scene.detectors@.len(),
            j <= n,
            scene.detectors == old(scene).detectors,
            scene.statics == old(scene).statics,
            scene.players@.len() == old(scene).players@.len(),
            forall|p: int|
                0 <= p < old(scene).players@.len() ==> scene.players@[p] == spec_apply_slot(
                    old(scene).players@[p],
                    spec_has_detector(old(scene).detectors@.take(j as int), kind, p),
                    kind,
                    value,
                ),
        decreases n - j,
    {
        let d = scene.detectors[j];
        if d.kind == kind {
            let p = d.parent;
            if p < scene.players.len() {
                let slot = scene.players[p];
                if let Some(mut pl) = slot {
                    pl.flags.set_kind(kind, value);
                    scene.players[p] = Some(pl);
                }
            }
        }
        proof {
            assert(scene.detectors@.take((j + 1) as int) =~= scene.detectors@.take(
                j as int,
            ).push(d));
            assert forall|p: int| 0 <= p < old(scene).players@.len() implies spec_has_detector(
                scene.detectors@.take((j + 1) as int),
                kind,
                p,
            ) == (spec_has_detector(scene.detectors@.take(j as int), kind, p) || (d.kind == kind
                && d.parent == p)) by {
                lemma_has_detector_push(scene.detectors@.take(j as int), d, kind, p);
            }
        }
        j = j + 1;
    }
    proof {
        assert(scene.detectors@.take(n as int) =~= scene.detectors@);
    }
}

/// Drains `events` in arrival order for the pairing-order-symmetric handler
/// of `kind`, folding the flag onto every targeted, live parent.
fn react_to_events(scene: &mut Scene, events: &Vec<CollisionEvent>, kind: DetectorKind)
    ensures
        final(scene).players@.len() == old(scene).players@.len(),
        final(scene).detectors == old(scene).detectors,
        final(scene).statics == old(scene).statics,
        forall|p: int|
            0 <= p < old(scene).players@.len() ==> final(scene).players@[p] == spec_react_slot(
                old(scene).players@[p],
                spec_has_detector(old(scene).detectors@, kind, p),
                events@,
                kind,
            ),
{
    let n = events.len();
    let mut i: usize = 0;
    while i < n
        invariant
            n == events@.len(),
            i <= n,
            scene.detectors == old(scene).detectors,
            scene.statics == old(scene).statics,
            scene.players@.len() == old(scene).players@.len(),
            forall|p: int|
                0 <= p < old(scene).players@.len() ==> scene.players@[p] == spec_react_slot(
                    old(scene).players@[p],
                    spec_has_detector(old(scene).detectors@, kind, p),
                    events@.take(i as int),
                    kind,
                ),
        decreases n - i,
    {
        let e = &events[i];
        let ls = e.collision_layers();
        if pair_matches(ls.0, ls.1, kind) {
            let value = e.is_started();
            apply_flag_to_targets(scene, kind, value);
        }
        proof {
            assert(events@.take((i + 1) as int).drop_last() =~= events@.take(i as int));
            assert(events@.take((i + 1) as int).last() == events@[i as int]);
        }
        i = i + 1;
    }
    proof {
        assert(events@.take(n as int) =~= events@);
    }
}

/// Drains `events` in arrival order for the asymmetric ground handler,
/// folding the grounded flag onto every targeted, live parent.
fn react_to_ground_events(scene: &mut Scene, events: &Vec<CollisionEvent>)
    ensures
        final(scene).players@.len() == old(scene).players@.len(),
        final(scene).detectors == old(scene).detectors,
        final(scene).statics == old(scene).statics,
        forall|p: int|
            0 <= p < old(scene).players@.len() ==> final(scene).players@[p]
                == spec_ground_react_slot(
                old(scene).players@[p],
                spec_has_detector(old(scene).detectors@, DetectorKind::Ground, p),
                events@,
            ),
{
    let n = events.len();
    let mut i: usize = 0;
    while i < n
        invariant
            n == events@.len(),
            i <= n,
            scene.detectors == old(scene).detectors,
            scene.statics == old(scene).statics,
            scene.players@.len() == old(scene).players@.len(),
            forall|p: int|
                0 <= p < old(scene).players@.len() ==> scene.players@[p]
                    == spec_ground_react_slot(
                    old(scene).players@[p],
                    spec_has_detector(old(scene).detectors@, DetectorKind::Ground, p),
                    events@.take(i as int),
                ),
        decreases n - i,
    {
        let e = &events[i];
        let ls = e.collision_layers();
        if e.is_started() {
            if is_ground_detector(ls.0) && is_world(ls.1) {
                apply_flag_to_targets(scene, DetectorKind::Ground, true);
            }
        } else {
            if pair_matches(ls.0, ls.1, DetectorKind::Ground) {
                apply_flag_to_targets(scene, DetectorKind::Ground, false);
            }
        }
        proof {
            assert(events@.take((i + 1) as int).drop_last() =~= events@.take(i as int));
            assert(events@.take((i + 1) as int).last() == events@[i as int]);
        }
        i = i + 1;
    }
    proof {
        assert(events@.take(n as int) =~= events@);
    }
}

/// The contact normals a stopped ground contact surfaces: the normals of
/// whichever side is the ground detector, if the pair matches at all.
pub open spec fn spec_ground_stop_normals(event: CollisionEvent) -> Option<Seq<(i32, i32)>> {
    match event {
        CollisionEvent::Started(_, _) => None,
        CollisionEvent::Stopped(d1, d2) => if spec_is_detector(d1.layers, DetectorKind::Ground)
            && spec_is_world(d2.layers) {
            Some(d1.normals@)
        } else if spec_is_detector(d2.layers, DetectorKind::Ground) && spec_is_world(d1.layers) {
            Some(d2.normals@)
        } else {
            None
        },
    }
}

/// The diagnostic output of the ground handlers over a tick's queue: one
/// record of contact normals per terminating ground contact, in arrival
/// order.  Informational only; no later logic consumes it.
pub open spec fn spec_ground_diag(events: Seq<CollisionEvent>) -> Seq<Seq<(i32, i32)>>
    decreases events.len(),
{
    if events.len() == 0 {
        Seq::empty()
    } else {
        let rest = spec_ground_diag(events.drop_last());
        match spec_ground_stop_normals(events.last()) {
            Some(normals) => rest.push(normals),
            None => rest,
        }
    }
}

/// Copies a list of contact normals into a fresh vector.
fn copy_normals(src: &Vec<(i32, i32)>) -> (r: Vec<(i32, i32)>)
    ensures
        r@ == src@,
{
    let mut r: Vec<(i32, i32)> = Vec::new();
    let n = src.len();
    let mut i: usize = 0;
    while i < n
        invariant
            n == src@.len(),
            i <= n,
            r@ == src@.take(i as int),
        decreases n - i,
    {
        r.push(src[i]);
        proof {
            assert(src@.take((i + 1) as int) =~= src@.take(i as int).push(src@[i as int]));
        }
        i = i + 1;
    }
    proof {
        assert(src@.take(n as int) =~= src@);
    }
    r
}

/// Collects the diagnostic contact normals of every terminating ground
/// contact in `events`, in arrival order.
fn collect_ground_stop_diag(events: &Vec<CollisionEvent>) -> (diag: Vec<Vec<(i32, i32)>>)
    ensures
        diag@.len() == spec_ground_diag(events@).len(),
        forall|m: int|
            0 <= m < diag@.len() ==> diag@[m]@ == spec_ground_diag(events@)[m],
{
    let mut diag: Vec<Vec<(i32, i32)>> = Vec::new();
    let n = events.len();
    let mut i: usize = 0;
    while i < n
        invariant
            n == events@.len(),
            i <= n,
            diag@.len() == spec_ground_diag(events@.take(i as int)).len(),
            forall|m: int|
                0 <= m < diag@.len() ==> diag@[m]@ == spec_ground_diag(events@.take(i as int))[m],
        decreases n - i,
    {
        let e = &events[i];
        match e {
            CollisionEvent::Stopped(d1, d2) => {
                if is_ground_detector(d1.layers) && is_world(d2.layers) {
                    diag.push(copy_normals(d1.normals()));
                } else if is_ground_detector(d2.layers) && is_world(d1.layers) {
                    diag.push(copy_normals(d2.normals()));
                }
            },
            CollisionEvent::Started(_, _) => {},
        }
        proof {
            assert(events@.take((i + 1) as int).drop_last() =~= events@.take(i as int));
            assert(events@.take((i + 1) as int).last() == events@[i as int]);
        }
        i = i + 1;
    }
    proof {
        assert(events@.take(n as int) =~= events@);
    }
    diag
}

/// The ground reaction system as the pipeline runs it.  A matching stopped
/// event clears the grounded flag on every ground detector's live parent and
/// surfaces that contact's normals as diagnostics; a matching started event
/// sets the flag only when the detector is the first-listed participant of
/// the pair — in the mirrored ordering the begin signal is deliberately
/// dropped, a documented quirk of this handler; `handle_ground_detector` is
/// the variant that honours both orderings.
pub fn handle_ground_detection(scene: &mut Scene, events: &Vec<CollisionEvent>) -> (diag: Vec<
    Vec<(i32, i32)>,
>)
    ensures
        final(scene).players@.len() == old(scene).players@.len(),
        final(scene).detectors == old(scene).detectors,
        final(scene).statics == old(scene).statics,
        forall|p: int|
            0 <= p < old(scene).players@.len() ==> final(scene).players@[p]
                == spec_ground_react_slot(
                old(scene).players@[p],
                spec_has_detector(old(scene).detectors@, DetectorKind::Ground, p),
                events@,
            ),
        diag@.len() == spec_ground_diag(events@).len(),
        forall|m: int|
            0 <= m < diag@.len() ==> diag@[m]@ == spec_ground_diag(events@)[m],
{
    let diag = collect_ground_stop_diag(events);
    react_to_ground_events(scene, events);
    diag
}

/// The ground reaction system with the begin signal honoured in both pair
/// orderings: a matching started event always sets the grounded flag on the
/// detector's live parent, a matching stopped event clears it and surfaces
/// the contact's normals as diagnostics.
pub fn handle_ground_detector(scene: &mut Scene, events: &Vec<CollisionEvent>) -> (diag: Vec<
    Vec<(i32, i32)>,
>)
    ensures
        final(scene).players@.len() == old(scene).players@.len(),
        final(scene).detectors == old(scene).detectors,
        final(scene).statics == old(scene).statics,
        forall|p: int|
            0 <= p < old(scene).players@.len() ==> final(scene).players@[p] == spec_react_slot(
                old(scene).players@[p],
                spec_has_detector(old(scene).detectors@, DetectorKind::Ground, p),
                events@,
                DetectorKind::Ground,
            ),
        diag@.len() == spec_ground_diag(events@).len(),
        forall|m: int|
            0 <= m < diag@.len() ==> diag@[m]@ == spec_ground_diag(events@)[m],
{
    let diag = collect_ground_stop_diag(events);
    react_to_events(scene, events, DetectorKind::Ground);
    diag
}

/// The left-wall reaction system: a matching started event in either pair
/// ordering sets the touching-left-wall flag on every left-wall detector's
/// live parent, a matching stopped event clears it.
pub fn handle_left_wall_detection(scene: &mut Scene, events: &Vec<CollisionEvent>)
    ensures
        final(scene).players@.len() == old(scene).players@.len(),
        final(scene).detectors == old(scene).detectors,
        final(scene).statics == old(scene).statics,
        forall|p: int|
            0 <= p < old(scene).players@.len() ==> final(scene).players@[p] == spec_react_slot(
                old(scene).players@[p],
                spec_has_detector(old(scene).detectors@, DetectorKind::LeftWall, p),
                events@,
                DetectorKind::LeftWall,
            ),
{
    react_to_events(scene, events, DetectorKind::LeftWall);
}

/// The right-wall reaction system: a matching started event in either pair
/// ordering sets the touching-right-wall flag on every right-wall detector's
/// live parent, a matching stopped event clears it.
pub fn handle_right_wall_detection(scene: &mut Scene, events: &Vec<CollisionEvent>)
    ensures
        final(scene).players@.len() == old(scene).players@.len(),
        final(scene).detectors == old(scene).detectors,
        final(scene).statics == old(scene).statics,
        forall|p: int|
            0 <= p < old(scene).players@.len() ==> final(scene).players@[p] == spec_react_slot(
                old(scene).players@[p],
                spec_has_detector(old(scene).detectors@, DetectorKind::RightWall, p),
                events@,
                DetectorKind::RightWall,
            ),
{
    react_to_events(scene, events, DetectorKind::RightWall);
}

/// An event in which neither participant belongs to the world group mutates
/// no contact flag, in any reaction system.
pub proof fn lemma_no_world_no_flag_mutation(flag: bool, event: CollisionEvent, kind: DetectorKind)
    requires
        !spec_is_world(spec_event_layers(event).0),
        !spec_is_world(spec_event_layers(event).1),
    ensures
        spec_flag_step(flag, event, kind) == flag,
        spec_ground_step(flag, event) == flag,
{
}

/// A whole queue of events in which no participant belongs to the world
/// group leaves every contact flag where it started.
pub proof fn lemma_no_world_events_leave_flags_unchanged(
    flag: bool,
    events: Seq<CollisionEvent>,
    kind: DetectorKind,
)
    requires
        forall|i: int|
            0 <= i < events.len() ==> !spec_is_world(spec_event_layers(events[i]).0)
                && !spec_is_world(spec_event_layers(events[i]).1),
    ensures
        spec_flag_fold(flag, events, kind) == flag,
        spec_ground_fold(flag, events) == flag,
    decreases events.len(),
{
    if events.len() > 0 {
        lemma_no_world_events_leave_flags_unchanged(flag, events.drop_last(), kind);
        lemma_no_world_no_flag_mutation(flag, events.last(), kind);
    }
}

/// A whole queue of events in which no participant belongs to the world
/// group leaves every player slot exactly as it was, under every reaction
/// system.
pub proof fn lemma_worldless_queue_leaves_players_unchanged(
    slot: Option<Player>,
    targeted: bool,
    events: Seq<CollisionEvent>,
    kind: DetectorKind,
)
    requires
        forall|i: int|
            0 <= i < events.len() ==> !spec_is_world(spec_event_layers(events[i]).0)
                && !spec_is_world(spec_event_layers(events[i]).1),
    ensures
        spec_react_slot(slot, targeted, events, kind) == slot,
        spec_ground_react_slot(slot, targeted, events) == slot,
{
    if let Some(pl) = slot {
        lemma_no_world_events_leave_flags_unchanged(spec_has_flag(pl.flags, kind), events, kind);
        lemma_no_world_events_leave_flags_unchanged(pl.flags.grounded, events, kind);
    }
}

/// A started event matching (ground detector, world) in either ordering sets
/// the grounded flag, whatever it held before.
pub proof fn lemma_started_ground_match_sets_grounded(flag: bool, event: CollisionEvent)
    requires
        spec_event_started(event),
        spec_pair_matches(spec_event_layers(event).0, spec_event_layers(event).1, DetectorKind::Ground),
    ensures
        spec_flag_step(flag, event, DetectorKind::Ground) == true,
{
}

/// A queue whose last event is a started (ground detector, world) match in
/// either ordering leaves the grounded flag set on every targeted, live
/// parent.
pub proof fn lemma_started_ground_event_grounds_parent(pl: Player, events: Seq<CollisionEvent>)
    requires
        events.len() > 0,
        spec_event_started(events.last()),
        spec_pair_matches(
            spec_event_layers(events.last()).0,
            spec_event_layers(events.last()).1,
            DetectorKind::Ground,
        ),
    ensures
        spec_react_slot(Some(pl), true, events, DetectorKind::Ground) matches Some(r)
            && r.flags.grounded,
{
}

/// The asymmetric ground handler honours a begin event only when the ground
/// detector is the first-listed participant; this ordering sets the flag.
pub proof fn lemma_started_ground_first_ordering_sets_grounded(flag: bool, event: CollisionEvent)
    requires
        spec_event_started(event),
        spec_is_detector(spec_event_layers(event).0, DetectorKind::Ground),
        spec_is_world(spec_event_layers(event).1),
    ensures
        spec_ground_step(flag, event) == true,
{
}

/// A started followed by a stopped event for the same detector kind within
/// one tick's queue leaves the flag cleared, and the reverse order leaves it
/// set: the last-processed event dictates the flag, because events are
/// folded in arrival order.
pub proof fn lemma_start_stop_round_trip(
    flag: bool,
    start: CollisionEvent,
    stop: CollisionEvent,
    kind: DetectorKind,
)
    requires
        spec_event_started(start),
        spec_pair_matches(spec_event_layers(start).0, spec_event_layers(start).1, kind),
        !spec_event_started(stop),
        spec_pair_matches(spec_event_layers(stop).0, spec_event_layers(stop).1, kind),
    ensures
        spec_flag_fold(flag, seq![start, stop], kind) == false,
        spec_flag_fold(flag, seq![stop, start], kind) == true,
{
    assert(seq![start, stop].drop_last() =~= seq![start]);
    assert(seq![stop, start].drop_last() =~= seq![stop]);
    assert(seq![start].drop_last() =~= Seq::<CollisionEvent>::empty());
    assert(seq![stop].drop_last() =~= Seq::<CollisionEvent>::empty());
}

} // verus!
