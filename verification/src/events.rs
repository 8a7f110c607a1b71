//! Collision events as the physics boundary delivers them: one event per
//! detected pair transition, carrying the two participants' layer pairings,
//! a started/stopped direction, and the contact normals of each side's
//! manifold.  Events live for exactly one tick's queue and are drained in
//! arrival order.

use vstd::prelude::*;

use crate::layers::CollisionLayers;

verus! {

/// One side of a collision pair: the body's layer pairing and the contact
/// normals of its manifold.  Normals are diagnostic only; they are reported
/// as plain integer vectors and never consumed by later logic.
#[derive(Clone, Debug, PartialEq)]
pub struct CollisionData {
    pub layers: CollisionLayers,
    pub normals: Vec<(i32, i32)>,
}

impl CollisionData {
    /// A participant with the given layers and no recorded normals.
    pub fn new(layers: CollisionLayers) -> (r: Self)
        ensures
            r.layers == layers,
            r.normals@ == Seq::<(i32, i32)>::empty(),
    {
        CollisionData { layers, normals: Vec::new() }
    }

    /// The contact normals of this side's manifold.
    pub fn normals(&self) -> (r: &Vec<(i32, i32)>)
        ensures
            r == &self.normals,
    {
        &self.normals
    }
}

/// One pair transition reported by the physics engine.
#[derive(Clone, Debug, PartialEq)]
pub enum CollisionEvent {
    Started(CollisionData, CollisionData),
    Stopped(CollisionData, CollisionData),
}

/// The two participants' layer pairings, in the order the engine reported
/// them.  The engine does not promise which side of the pair is "self".
pub open spec fn spec_event_layers(event: CollisionEvent) -> (CollisionLayers, CollisionLayers) {
    match event {
        CollisionEvent::Started(d1, d2) => (d1.layers, d2.layers),
        CollisionEvent::Stopped(d1, d2) => (d1.layers, d2.layers),
    }
}

/// Whether the event reports a beginning contact.
pub open spec fn spec_event_started(event: CollisionEvent) -> bool {
    event is Started
}

impl CollisionEvent {
    /// The two participants' layer pairings, in reported order.
    pub fn collision_layers(&self) -> (r: (CollisionLayers, CollisionLayers))
        ensures
            r == spec_event_layers(*self),
    {
        match self {
            CollisionEvent::Started(d1, d2) => (d1.layers, d2.layers),
            CollisionEvent::Stopped(d1, d2) => (d1.layers, d2.layers),
        }
    }

    /// Whether this event reports a beginning contact.
    pub fn is_started(&self) -> (r: bool)
        ensures
            r == spec_event_started(*self),
    {
        match self {
            CollisionEvent::Started(_, _) => true,
            CollisionEvent::Stopped(_, _) => false,
        }
    }
}

} // verus!
