//! The records the gameplay logic works on: the player, its contact flags,
//! the post-wall-jump lockout timer, and the sensor detectors.

use vstd::prelude::*;

verus! {

/// Linear velocity of the player's rigid body, in world units per second.
#[derive(Clone, Copy, Debug, PartialEq, Eq, Structural)]
pub struct Velocity {
    pub x: i32,
    pub y: i32,
}

/// The lockout timer carried by a player after a wall jump, counted down in
/// milliseconds of elapsed real time.  While present it suppresses further
/// jump and movement decisions.
#[derive(Clone, Copy, Debug, PartialEq, Eq, Structural)]
pub struct Busy {
    pub remaining_ms: u64,
}

/// The remaining duration after advancing a lockout timer by `delta_ms`.
pub open spec fn spec_busy_tick(remaining_ms: u64, delta_ms: u64) -> u64 {
    if delta_ms >= remaining_ms {
        0
    } else {
        (remaining_ms - delta_ms) as u64
    }
}

impl Busy {
    /// A fresh lockout of `duration_ms` milliseconds.
    pub fn new(duration_ms: u64) -> (r: Self)
        ensures
            r.remaining_ms == duration_ms,
    {
        Busy { remaining_ms: duration_ms }
    }

    /// Whether the lockout has run out.
    pub fn finished(&self) -> (r: bool)
        ensures
            r == (self.remaining_ms == 0),
    {
        self.remaining_ms == 0
    }

    /// Advances the timer by `delta_ms` of elapsed time; the remaining
    /// duration never goes below zero.
    pub fn tick(&mut self, delta_ms: u64)
        ensures
            final(self).remaining_ms == spec_busy_tick(old(self).remaining_ms, delta_ms),
    {
        if delta_ms >= self.remaining_ms {
            self.remaining_ms = 0;
        } else {
            self.remaining_ms = self.remaining_ms - delta_ms;
        }
    }
}

/// The three kinds of contact a detector can report, each mirrored by one
/// contact flag on the detector's parent.
#[derive(Clone, Copy, Debug, PartialEq, Eq, Structural)]
pub enum DetectorKind {
    Ground,
    LeftWall,
    RightWall,
}

/// The collision layer a detector of the given kind registers as its group.
pub open spec fn spec_detector_layer(kind: DetectorKind) -> crate::layers::Layer {
    match kind {
        DetectorKind::Ground => crate::layers::Layer::GroundDetector,
        DetectorKind::LeftWall => crate::layers::Layer::LeftWallDetector,
        DetectorKind::RightWall => crate::layers::Layer::RightWallDetector,
    }
}

/// The per-player contact-flag store: presence or absence of each contact
/// kind, pure data with no behaviour of its own.
#[derive(Clone, Copy, Debug, PartialEq, Eq, Structural)]
pub struct ContactFlags {
    pub grounded: bool,
    pub left_wall: bool,
    pub right_wall: bool,
}

/// Whether the flag of `kind` is present in `flags`.
pub open spec fn spec_has_flag(flags: ContactFlags, kind: DetectorKind) -> bool {
    match kind {
        DetectorKind::Ground => flags.grounded,
        DetectorKind::LeftWall => flags.left_wall,
        DetectorKind::RightWall => flags.right_wall,
    }
}

/// `flags` with the flag of `kind` set to `value`.
pub open spec fn spec_set_flag(flags: ContactFlags, kind: DetectorKind, value: bool) -> ContactFlags {
    match kind {
        DetectorKind::Ground => ContactFlags { grounded: value, ..flags },
        DetectorKind::LeftWall => ContactFlags { left_wall: value, ..flags },
        DetectorKind::RightWall => ContactFlags { right_wall: value, ..flags },
    }
}

/// `flags` with the flag of `kind` inserted.
pub open spec fn spec_insert_flag(flags: ContactFlags, kind: DetectorKind) -> ContactFlags {
    spec_set_flag(flags, kind, true)
}

/// `flags` with the flag of `kind` removed.
pub open spec fn spec_remove_flag(flags: ContactFlags, kind: DetectorKind) -> ContactFlags {
    spec_set_flag(flags, kind, false)
}

impl ContactFlags {
    /// The empty store: no contact reported.
    pub fn none() -> (r: Self)
        ensures
            r == (ContactFlags { grounded: false, left_wall: false, right_wall: false }),
    {
        ContactFlags { grounded: false, left_wall: false, right_wall: false }
    }

    /// Whether the flag of `kind` is present.
    pub fn has(&self, kind: DetectorKind) -> (r: bool)
        ensures
            r == spec_has_flag(*self, kind),
    {
        match kind {
            DetectorKind::Ground => self.grounded,
            DetectorKind::LeftWall => self.left_wall,
            DetectorKind::RightWall => self.right_wall,
        }
    }

    /// Inserts the flag of `kind`; inserting an already-present flag is a
    /// no-op.
    pub fn insert(&mut self, kind: DetectorKind)
        ensures
            *final(self) == spec_insert_flag(*old(self), kind),
    {
        self.set_kind(kind, true);
    }

    /// Removes the flag of `kind`; removing an absent flag is a no-op.
    pub fn remove(&mut self, kind: DetectorKind)
        ensures
            *final(self) == spec_remove_flag(*old(self), kind),
    {
        self.set_kind(kind, false);
    }

    /// Sets the flag of `kind` to `value`.
    pub fn set_kind(&mut self, kind: DetectorKind, value: bool)
        ensures
            *final(self) == spec_set_flag(*old(self), kind, value),
    {
        match kind {
            DetectorKind::Ground => self.grounded = value,
            DetectorKind::LeftWall => self.left_wall = value,
            DetectorKind::RightWall => self.right_wall = value,
        }
    }
}

/// Inserting an already-present contact flag leaves the flag store
/// unchanged.
pub proof fn lemma_insert_present_flag_is_noop(flags: ContactFlags, kind: DetectorKind)
    requires
        spec_has_flag(flags, kind),
    ensures
        spec_insert_flag(flags, kind) == flags,
{
}

/// Removing an absent contact flag leaves the flag store unchanged.
pub proof fn lemma_remove_absent_flag_is_noop(flags: ContactFlags, kind: DetectorKind)
    requires
        !spec_has_flag(flags, kind),
    ensures
        spec_remove_flag(flags, kind) == flags,
{
}

/// One player record: the only entity whose state the gameplay systems
/// mutate.  Velocity is written by the input decisions, the contact flags by
/// the reaction systems, and the lockout by the jump decision and the timer
/// system.
#[derive(Clone, Copy, Debug, PartialEq)]
pub struct Player {
    pub velocity: Velocity,
    pub flags: ContactFlags,
    pub busy: Option<Busy>,
}

impl Player {
    /// A freshly spawned player: at rest, no contact reported, no lockout.
    pub fn new() -> (r: Self)
        ensures
            r == spec_initial_player(),
    {
        Player { velocity: Velocity { x: 0, y: 0 }, flags: ContactFlags::none(), busy: None }
    }
}

/// The state every player starts in.
pub open spec fn spec_initial_player() -> Player {
    Player {
        velocity: Velocity { x: 0, y: 0 },
        flags: ContactFlags { grounded: false, left_wall: false, right_wall: false },
        busy: None,
    }
}

/// One sensor detector: a child of a player, registered with its own
/// collision layers, reporting contacts of one kind onto its parent.
#[derive(Clone, Copy, Debug, PartialEq)]
pub struct Detector {
    pub kind: DetectorKind,
    pub layers: crate::layers::CollisionLayers,
    pub parent: usize,
}

} // verus!
