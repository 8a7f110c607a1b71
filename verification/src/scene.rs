//! The arena of typed records the systems run over, and the one-time scene
//! setup that the startup collaborator instantiates.

use vstd::prelude::*;

use crate::components::{
    spec_detector_layer, spec_initial_player, Detector, DetectorKind, Player,
};
use crate::layers::{
    lemma_or_into_zero, spec_layer_bits, CollisionLayers, Layer,
};

verus! {

/// The arena: player slots addressed by index (a despawned player leaves
/// `None` behind), the sensor detectors with their parent links, and the
/// immutable world geometry's layer pairings.
#[derive(Clone, Debug)]
pub struct Scene {
    pub players: Vec<Option<Player>>,
    pub detectors: Vec<Detector>,
    pub statics: Vec<CollisionLayers>,
}

/// Whether some detector of `kind` names `parent` as its parent.
pub open spec fn spec_has_detector(detectors: Seq<Detector>, kind: DetectorKind, parent: int) -> bool {
    exists|i: int|
        0 <= i < detectors.len() && detectors[i].kind == kind && detectors[i].parent == parent
}

/// The layer pairing a detector of `kind` is registered with: its own
/// detector layer as group, the world layer as mask.
pub open spec fn spec_detector_collision_layers(kind: DetectorKind) -> CollisionLayers {
    CollisionLayers {
        groups: spec_layer_bits(spec_detector_layer(kind)),
        masks: spec_layer_bits(Layer::World),
    }
}

/// The layer pairing of a piece of world geometry: the world layer as group,
/// masked against the player and all three detector layers.
pub open spec fn spec_world_collision_layers() -> CollisionLayers {
    CollisionLayers {
        groups: spec_layer_bits(Layer::World),
        masks: spec_layer_bits(Layer::Player) | spec_layer_bits(Layer::GroundDetector)
            | spec_layer_bits(Layer::RightWallDetector) | spec_layer_bits(Layer::LeftWallDetector),
    }
}

/// Registers a detector's layer pairing: group `kind`'s own layer, masked
/// against the world.
fn detector_collision_layers(kind: DetectorKind) -> (r: CollisionLayers)
    ensures
        r == spec_detector_collision_layers(kind),
{
    let layer = match kind {
        DetectorKind::Ground => Layer::GroundDetector,
        DetectorKind::LeftWall => Layer::LeftWallDetector,
        DetectorKind::RightWall => Layer::RightWallDetector,
    };
    let r = CollisionLayers::none().with_group(layer).with_mask(Layer::World);
    proof {
        lemma_or_into_zero(spec_layer_bits(layer));
        lemma_or_into_zero(spec_layer_bits(Layer::World));
    }
    r
}

/// Builds the scene exactly once at startup: one player at rest in slot 0,
/// its three child detectors (ground, left wall, right wall) registered
/// against the world layer, and the two static world bodies (floor and
/// wall) masked against the player and all three detectors.
pub fn spawn() -> (scene: Scene)
    ensures
        scene.players@.len() == 1,
        scene.players@[0] == Some(spec_initial_player()),
        scene.detectors@.len() == 3,
        scene.detectors@[0] == (Detector {
            kind: DetectorKind::Ground,
            layers: spec_detector_collision_layers(DetectorKind::Ground),
            parent: 0,
        }),
        scene.detectors@[1] == (Detector {
            kind: DetectorKind::LeftWall,
            layers: spec_detector_collision_layers(DetectorKind::LeftWall),
            parent: 0,
        }),
        scene.detectors@[2] == (Detector {
            kind: DetectorKind::RightWall,
            layers: spec_detector_collision_layers(DetectorKind::RightWall),
            parent: 0,
        }),
        scene.statics@.len() == 2,
        scene.statics@[0] == spec_world_collision_layers(),
        scene.statics@[1] == spec_world_collision_layers(),
{
    let mut players: Vec<Option<Player>> = Vec::new();
    players.push(Some(Player::new()));

    let mut detectors: Vec<Detector> = Vec::new();
    detectors.push(Detector {
        kind: DetectorKind::Ground,
        layers: detector_collision_layers(DetectorKind::Ground),
        parent: 0,
    });
    detectors.push(Detector {
        kind: DetectorKind::LeftWall,
        layers: detector_collision_layers(DetectorKind::LeftWall),
        parent: 0,
    });
    detectors.push(Detector {
        kind: DetectorKind::RightWall,
        layers: detector_collision_layers(DetectorKind::RightWall),
        parent: 0,
    });

    let world = CollisionLayers::none()
        .with_group(Layer::World)
        .with_mask(Layer::Player)
        .with_mask(Layer::GroundDetector)
        .with_mask(Layer::RightWallDetector)
        .with_mask(Layer::LeftWallDetector);
    proof {
        lemma_or_into_zero(spec_layer_bits(Layer::World));
        lemma_or_into_zero(spec_layer_bits(Layer::Player));
    }
    let mut statics: Vec<CollisionLayers> = Vec::new();
    statics.push(world);
    statics.push(world);

    Scene { players, detectors, statics }
}

} // verus!
