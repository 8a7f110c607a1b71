use platformer_core::components::{ContactFlags, DetectorKind, Player, Velocity};
use platformer_core::detection::{
    classify_event, handle_ground_detection, handle_ground_detector, handle_left_wall_detection,
    handle_right_wall_detection, is_ground_detector, is_left_wall_detector, is_player,
    is_right_wall_detector, is_world, pair_matches, Signal,
};
use platformer_core::events::{CollisionData, CollisionEvent};
use platformer_core::layers::{CollisionLayers, Layer};
use platformer_core::scene::{spawn, Scene};

fn detector_layers(layer: Layer) -> CollisionLayers {
    CollisionLayers::none().with_group(layer).with_mask(Layer::World)
}

fn world_layers() -> CollisionLayers {
    CollisionLayers::none().with_group(Layer::World).with_masks(&[
        Layer::Player,
        Layer::GroundDetector,
        Layer::RightWallDetector,
        Layer::LeftWallDetector,
    ])
}

fn player_layers() -> CollisionLayers {
    CollisionLayers::none().with_group(Layer::Player).with_mask(Layer::World)
}

fn started(a: CollisionLayers, b: CollisionLayers) -> CollisionEvent {
    CollisionEvent::Started(CollisionData::new(a), CollisionData::new(b))
}

fn stopped(a: CollisionLayers, b: CollisionLayers) -> CollisionEvent {
    CollisionEvent::Stopped(CollisionData::new(a), CollisionData::new(b))
}

fn player(scene: &Scene) -> Player {
    scene.players[0].expect("player slot is alive")
}

#[test]
fn layer_bits_are_distinct_named_positions() {
    let all = [
        Layer::World,
        Layer::Player,
        Layer::GroundDetector,
        Layer::LeftWallDetector,
        Layer::RightWallDetector,
    ];
    for (i, a) in all.iter().enumerate() {
        assert_eq!(a.bits().count_ones(), 1);
        for (j, b) in all.iter().enumerate() {
            if i != j {
                assert_ne!(a.bits(), b.bits());
            }
        }
    }
}

#[test]
fn group_and_mask_membership() {
    let l = detector_layers(Layer::GroundDetector);
    assert!(l.contains_group(Layer::GroundDetector));
    assert!(!l.contains_group(Layer::World));
    assert!(l.contains_mask(Layer::World));
    assert!(!l.contains_mask(Layer::Player));
    assert!(is_ground_detector(l));
    assert!(!is_world(l));
    assert!(!is_player(l));
    assert!(!is_left_wall_detector(l));
    assert!(!is_right_wall_detector(l));
    assert!(is_world(world_layers()));
    assert!(is_player(player_layers()));
}

#[test]
fn with_masks_joins_every_layer() {
    let w = world_layers();
    assert!(w.contains_mask(Layer::Player));
    assert!(w.contains_mask(Layer::GroundDetector));
    assert!(w.contains_mask(Layer::LeftWallDetector));
    assert!(w.contains_mask(Layer::RightWallDetector));
    assert!(!w.contains_mask(Layer::World));
    assert_eq!(
        w.masks,
        Layer::Player.bits()
            | Layer::GroundDetector.bits()
            | Layer::RightWallDetector.bits()
            | Layer::LeftWallDetector.bits()
    );
}

#[test]
fn pairing_test_is_mutual() {
    assert!(player_layers().interacts_with(&world_layers()));
    assert!(world_layers().interacts_with(&player_layers()));
    // Two players never generate events against each other.
    assert!(!player_layers().interacts_with(&player_layers()));
    // A detector is masked against the world only.
    assert!(detector_layers(Layer::GroundDetector).interacts_with(&world_layers()));
    assert!(!detector_layers(Layer::GroundDetector).interacts_with(&player_layers()));
}

#[test]
fn spawn_builds_the_documented_scene() {
    let scene = spawn();
    assert_eq!(scene.players.len(), 1);
    let pl = player(&scene);
    assert_eq!(pl.velocity, Velocity { x: 0, y: 0 });
    assert_eq!(
        pl.flags,
        ContactFlags { grounded: false, left_wall: false, right_wall: false }
    );
    assert!(pl.busy.is_none());

    assert_eq!(scene.detectors.len(), 3);
    let kinds = [DetectorKind::Ground, DetectorKind::LeftWall, DetectorKind::RightWall];
    let groups = [Layer::GroundDetector, Layer::LeftWallDetector, Layer::RightWallDetector];
    for (d, (kind, group)) in scene.detectors.iter().zip(kinds.iter().zip(groups.iter())) {
        assert_eq!(d.kind, *kind);
        assert_eq!(d.parent, 0);
        assert!(d.layers.contains_group(*group));
        assert!(d.layers.contains_mask(Layer::World));
    }

    assert_eq!(scene.statics.len(), 2);
    for s in &scene.statics {
        assert!(s.contains_group(Layer::World));
        assert!(s.contains_mask(Layer::Player));
        assert!(s.contains_mask(Layer::GroundDetector));
        assert!(s.contains_mask(Layer::LeftWallDetector));
        assert!(s.contains_mask(Layer::RightWallDetector));
    }
}

#[test]
fn classifier_matches_both_orderings() {
    let scene = spawn();
    let ground = scene.detectors[0];
    let e1 = started(detector_layers(Layer::GroundDetector), world_layers());
    let e2 = started(world_layers(), detector_layers(Layer::GroundDetector));
    let expected = Signal { kind: DetectorKind::Ground, started: true, parent: 0 };
    assert_eq!(classify_event(&e1, &ground), Some(expected));
    assert_eq!(classify_event(&e2, &ground), Some(expected));

    let s1 = stopped(detector_layers(Layer::GroundDetector), world_layers());
    let stop_signal = Signal { kind: DetectorKind::Ground, started: false, parent: 0 };
    assert_eq!(classify_event(&s1, &ground), Some(stop_signal));

    // A wall event is no ground signal, and a worldless pair is no signal.
    let wall = started(detector_layers(Layer::LeftWallDetector), world_layers());
    assert_eq!(classify_event(&wall, &ground), None);
    let worldless = started(player_layers(), player_layers());
    assert_eq!(classify_event(&worldless, &ground), None);

    assert!(pair_matches(
        world_layers(),
        detector_layers(Layer::LeftWallDetector),
        DetectorKind::LeftWall
    ));
    assert!(!pair_matches(player_layers(), player_layers(), DetectorKind::LeftWall));
}

#[test]
fn worldless_events_mutate_no_flag() {
    let mut scene = spawn();
    let before = player(&scene);
    let events = vec![
        started(player_layers(), player_layers()),
        stopped(detector_layers(Layer::GroundDetector), detector_layers(Layer::LeftWallDetector)),
        started(detector_layers(Layer::RightWallDetector), player_layers()),
    ];
    let diag = handle_ground_detection(&mut scene, &events);
    handle_left_wall_detection(&mut scene, &events);
    handle_right_wall_detection(&mut scene, &events);
    handle_ground_detector(&mut scene, &events);
    assert_eq!(player(&scene), before);
    assert!(diag.is_empty());
}

#[test]
fn ground_started_sets_grounded_on_the_parent() {
    let mut scene = spawn();
    let events = vec![started(detector_layers(Layer::GroundDetector), world_layers())];
    handle_ground_detection(&mut scene, &events);
    assert!(player(&scene).flags.grounded);
}

#[test]
fn ground_started_mirrored_ordering_is_dropped() {
    // The deliberate asymmetry: the mirrored ordering of a begin event
    // leaves the flag alone in handle_ground_detection.
    let mut scene = spawn();
    let events = vec![started(world_layers(), detector_layers(Layer::GroundDetector))];
    handle_ground_detection(&mut scene, &events);
    assert!(!player(&scene).flags.grounded);
}

#[test]
fn ground_detector_honours_both_started_orderings() {
    let mut scene = spawn();
    let events = vec![started(world_layers(), detector_layers(Layer::GroundDetector))];
    handle_ground_detector(&mut scene, &events);
    assert!(player(&scene).flags.grounded);

    let mut scene2 = spawn();
    let events2 = vec![started(detector_layers(Layer::GroundDetector), world_layers())];
    handle_ground_detector(&mut scene2, &events2);
    assert!(player(&scene2).flags.grounded);
}

#[test]
fn ground_stop_clears_the_flag_and_reports_normals() {
    let mut scene = spawn();
    if let Some(pl) = scene.players[0].as_mut() {
        pl.flags.grounded = true;
    }
    let data = CollisionData {
        layers: detector_layers(Layer::GroundDetector),
        normals: vec![(0, 1), (1, 0)],
    };
    let events = vec![CollisionEvent::Stopped(data, CollisionData::new(world_layers()))];
    let diag = handle_ground_detection(&mut scene, &events);
    assert!(!player(&scene).flags.grounded);
    assert_eq!(diag, vec![vec![(0, 1), (1, 0)]]);
}

#[test]
fn ground_stop_mirrored_ordering_reports_the_detector_side() {
    let mut scene = spawn();
    if let Some(pl) = scene.players[0].as_mut() {
        pl.flags.grounded = true;
    }
    let data = CollisionData {
        layers: detector_layers(Layer::GroundDetector),
        normals: vec![(0, -1)],
    };
    let events = vec![CollisionEvent::Stopped(CollisionData::new(world_layers()), data)];
    let diag = handle_ground_detection(&mut scene, &events);
    assert!(!player(&scene).flags.grounded);
    assert_eq!(diag, vec![vec![(0, -1)]]);
}

#[test]
fn flag_insert_and_remove_are_idempotent() {
    let mut flags = ContactFlags::none();
    assert!(!flags.has(DetectorKind::LeftWall));
    flags.insert(DetectorKind::LeftWall);
    assert!(flags.has(DetectorKind::LeftWall));
    let once = flags;
    flags.insert(DetectorKind::LeftWall);
    assert_eq!(flags, once);

    flags.remove(DetectorKind::RightWall);
    assert_eq!(flags, once);
    flags.remove(DetectorKind::LeftWall);
    assert_eq!(flags, ContactFlags::none());
    flags.remove(DetectorKind::LeftWall);
    assert_eq!(flags, ContactFlags::none());
}

#[test]
fn wall_handlers_set_and_clear_their_flags() {
    let mut scene = spawn();
    let left_begin = vec![started(detector_layers(Layer::LeftWallDetector), world_layers())];
    handle_left_wall_detection(&mut scene, &left_begin);
    assert!(player(&scene).flags.left_wall);
    assert!(!player(&scene).flags.right_wall);

    let right_begin = vec![started(world_layers(), detector_layers(Layer::RightWallDetector))];
    handle_right_wall_detection(&mut scene, &right_begin);
    assert!(player(&scene).flags.right_wall);

    let left_end = vec![stopped(world_layers(), detector_layers(Layer::LeftWallDetector))];
    handle_left_wall_detection(&mut scene, &left_end);
    assert!(!player(&scene).flags.left_wall);
    assert!(player(&scene).flags.right_wall);

    let right_end = vec![stopped(detector_layers(Layer::RightWallDetector), world_layers())];
    handle_right_wall_detection(&mut scene, &right_end);
    assert!(!player(&scene).flags.right_wall);
}

#[test]
fn round_trip_last_event_dictates_the_flag() {
    // Start then stop within one tick's queue leaves the flag cleared ...
    let mut scene = spawn();
    let start = started(detector_layers(Layer::LeftWallDetector), world_layers());
    let stop = stopped(detector_layers(Layer::LeftWallDetector), world_layers());
    handle_left_wall_detection(&mut scene, &vec![start.clone(), stop.clone()]);
    assert!(!player(&scene).flags.left_wall);

    // ... and stop then start leaves it set: arrival order, never reordered.
    let mut scene2 = spawn();
    handle_left_wall_detection(&mut scene2, &vec![stop, start]);
    assert!(player(&scene2).flags.left_wall);
}

#[test]
fn reaction_on_despawned_or_dangling_parent_is_a_noop() {
    let mut scene = spawn();
    scene.players[0] = None;
    let events = vec![started(detector_layers(Layer::GroundDetector), world_layers())];
    handle_ground_detection(&mut scene, &events);
    assert!(scene.players[0].is_none());

    let mut scene2 = spawn();
    for d in scene2.detectors.iter_mut() {
        d.parent = 7;
    }
    let before = player(&scene2);
    handle_ground_detection(&mut scene2, &events);
    handle_left_wall_detection(&mut scene2, &events);
    assert_eq!(player(&scene2), before);
}
