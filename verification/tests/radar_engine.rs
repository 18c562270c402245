use stacktrader_systems::position_cache::{Position, PositionCache};
use stacktrader_systems::radar::{
    radar_updates, within_radius, ContactBook, RadarContact, RadarContactDelta, RadarReceiver,
    Sighting, TargetVector,
};
use stacktrader_systems::radar_frame::sightings_of;

/// Thousandths of a unit: the integer scale these tests put lengths and
/// angles on.
const SCALE: f64 = 1000.0;

#[derive(Clone, Copy, Debug)]
struct Point {
    x: f64,
    y: f64,
    z: f64,
}

fn on_scale(value: f64) -> i64 {
    (value * SCALE).round() as i64
}

fn length_on_scale(value: f64) -> u64 {
    (value * SCALE).round() as u64
}

fn off_scale(value: i64) -> f64 {
    value as f64 / SCALE
}

fn cached(point: &Point) -> Position {
    Position { x: on_scale(point.x), y: on_scale(point.y), z: on_scale(point.z) }
}

fn distance_between(from: &Point, to: &Point) -> f64 {
    let (dx, dy, dz) = (to.x - from.x, to.y - from.y, to.z - from.z);
    (dx * dx + dy * dy + dz * dz).sqrt()
}

fn vector_between(from: &Point, to: &Point) -> TargetVector {
    let (dx, dy, dz) = (to.x - from.x, to.y - from.y, to.z - from.z);
    let mag = distance_between(from, to);
    let azimuth = if dx == 0.0 && dy == 0.0 { 0.0 } else { dx.atan2(dy).to_degrees() };
    let elevation = if mag == 0.0 { 0.0 } else { (dz / mag).asin().to_degrees() };
    TargetVector { mag: length_on_scale(mag), azimuth: on_scale(azimuth), elevation: on_scale(elevation) }
}

fn contact(entity_id: &str, vector: &TargetVector) -> RadarContact {
    RadarContact {
        entity_id: entity_id.to_string(),
        distance: vector.mag,
        azimuth: vector.azimuth,
        elevation: vector.elevation,
    }
}

fn seen_from(subject: &Point, all_positions: &PositionCache) -> Vec<Sighting> {
    let snapshot = all_positions.snapshot();
    let vectors: Vec<TargetVector> = snapshot
        .iter()
        .map(|entry| {
            let there = Point {
                x: off_scale(entry.position.x),
                y: off_scale(entry.position.y),
                z: off_scale(entry.position.z),
            };
            vector_between(subject, &there)
        })
        .collect();
    sightings_of(&snapshot, &vectors).expect("one vector for each entry")
}

#[test]
fn test_within_radius() {
    let a = Point { x: 1.0, y: 1.0, z: 1.0 };
    let b = Point { x: 1.0, y: 2.0, z: 1.0 };
    let radius = 3.0;
    assert!(within_radius(length_on_scale(distance_between(&a, &b)), on_scale(radius)));
}

#[test]
fn test_outside_radius() {
    let a = Point { x: 1.0, y: 1.0, z: 1.0 };
    let b = Point { x: 1.0, y: 200.0, z: 1.0 };
    let radius = 3.0;
    assert!(!within_radius(length_on_scale(distance_between(&a, &b)), on_scale(radius)));
}

#[test]
fn test_exact_radius() {
    let a = Point { x: 0.0, y: 20.0, z: 0.0 };
    let b = Point { x: 0.0, y: 0.0, z: 0.0 };
    let radius = 20.0;
    assert!(within_radius(length_on_scale(distance_between(&a, &b)), on_scale(radius)));
}

#[test]
fn test_add_contacts() {
    let rid = "decs.components.the_shard.myownentity".to_string();
    let current_position = Point { x: 0.0, y: 0.0, z: 0.0 };
    let radar_receiver = RadarReceiver { radius: on_scale(5.0) };
    let old_contacts = ContactBook::new();
    let mut all_positions = PositionCache::new();

    let vector_to = vector_between(&current_position, &current_position.clone());

    let nearby_asteroid = contact("decs.components.the_shard.asteroid", &vector_to);
    let nearby_ship = contact("decs.components.the_shard.ship", &vector_to);
    let mut far_away_money = contact("decs.components.the_shard.money", &vector_to);
    let mut far_away_money_pos = current_position.clone();
    far_away_money_pos.x += 500.0;
    let new_vector_to = vector_between(&current_position, &far_away_money_pos);
    far_away_money.distance = new_vector_to.mag;
    far_away_money.azimuth = new_vector_to.azimuth;
    far_away_money.elevation = new_vector_to.elevation;

    all_positions.record(rid.to_string(), cached(&current_position));
    all_positions.record(nearby_asteroid.entity_id.clone(), cached(&current_position.clone()));
    all_positions.record(nearby_ship.entity_id.clone(), cached(&current_position.clone()));
    all_positions.record(far_away_money.entity_id.clone(), cached(&far_away_money_pos.clone()));

    let changes = radar_updates(
        &rid,
        &radar_receiver,
        &old_contacts,
        &seen_from(&current_position, &all_positions),
    );

    assert_eq!(changes.len(), 2);
    // None of the changes is about the money far away; they are about the
    // asteroid and the ship nearby, one each.
    let mut found_rc_entity_id = far_away_money.clone().entity_id;
    for c in changes {
        match c {
            RadarContactDelta::Add(rc) => {
                assert!(
                    rc.entity_id != found_rc_entity_id
                        && (rc.entity_id == nearby_asteroid.entity_id
                            || rc.entity_id == nearby_ship.entity_id)
                );
                found_rc_entity_id = rc.clone().entity_id;
            }
            RadarContactDelta::Remove(_) => assert!(false),
            RadarContactDelta::Change(_, _) => assert!(false),
        }
    }
}

#[test]
fn test_remove_contacts() {
    let rid = "decs.components.the_shard.myownentity".to_string();
    let current_position = Point { x: 0.0, y: 0.0, z: 0.0 };
    let radar_receiver = RadarReceiver { radius: on_scale(5.0) };
    let mut all_positions = PositionCache::new();

    let vector_to = vector_between(&current_position, &current_position.clone());

    let mut nearby_asteroid = contact("decs.components.the_shard.asteroid", &vector_to);
    let mut nearby_ship = contact("decs.components.the_shard.ship", &vector_to);
    let mut far_away_money = contact("decs.components.the_shard.money", &vector_to);

    let mut old_contacts = ContactBook::new();
    let remove_rid_1 = "decs.components.the_shard.myownentity.1".to_string();
    let remove_rid_2 = "decs.components.the_shard.myownentity.2".to_string();
    old_contacts.insert(remove_rid_1.clone(), nearby_asteroid.clone());
    old_contacts.insert(remove_rid_2.clone(), nearby_ship.clone());

    let mut current_position_clone = current_position.clone();

    current_position_clone.x += 500.0;
    let new_vector_to = vector_between(&current_position, &current_position_clone);
    far_away_money.distance = new_vector_to.mag;
    far_away_money.azimuth = new_vector_to.azimuth;
    far_away_money.elevation = new_vector_to.elevation;
    nearby_asteroid.distance = new_vector_to.mag;
    nearby_asteroid.azimuth = new_vector_to.azimuth;
    nearby_asteroid.elevation = new_vector_to.elevation;
    nearby_ship.distance = new_vector_to.mag;
    nearby_ship.azimuth = new_vector_to.azimuth;
    nearby_ship.elevation = new_vector_to.elevation;

    all_positions.record(rid.to_string(), cached(&current_position));
    all_positions.record(nearby_asteroid.entity_id.clone(), cached(&current_position_clone.clone()));
    all_positions.record(nearby_ship.entity_id.clone(), cached(&current_position_clone.clone()));
    all_positions.record(far_away_money.entity_id.clone(), cached(&current_position_clone.clone()));

    let changes = radar_updates(
        &rid,
        &radar_receiver,
        &old_contacts,
        &seen_from(&current_position, &all_positions),
    );

    assert_eq!(changes.len(), 2);
    assert!(changes.contains(&RadarContactDelta::Remove(remove_rid_1)));
    assert!(changes.contains(&RadarContactDelta::Remove(remove_rid_2)));
    assert!(!changes.contains(&RadarContactDelta::Remove(far_away_money.entity_id.to_string())));
    assert!(!changes.contains(&RadarContactDelta::Remove(rid.to_string())));
    for c in changes {
        match c {
            RadarContactDelta::Add(_) => assert!(false),
            RadarContactDelta::Change(_, _) => assert!(false),
            RadarContactDelta::Remove(_) => assert!(true),
        }
    }
}

#[test]
fn test_change_contact() {
    let rid = "decs.components.the_shard.myownentity".to_string();
    let current_position = Point { x: 0.0, y: 0.0, z: 0.0 };
    let radar_receiver = RadarReceiver { radius: on_scale(5.0) };
    let mut all_positions = PositionCache::new();

    let vector_to = vector_between(&current_position, &current_position.clone());

    let mut nearby_asteroid = contact("decs.components.the_shard.asteroid", &vector_to);
    let mut nearby_ship = contact("decs.components.the_shard.ship", &vector_to);
    let mut far_away_money = contact("decs.components.the_shard.money", &vector_to);

    let mut old_contacts = ContactBook::new();

    let change_rid_1 = "decs.components.the_shard.myownentity.1".to_string();
    let change_rid_2 = "decs.components.the_shard.myownentity.2".to_string();
    let change_rid_3 = "decs.components.the_shard.myownentity.3".to_string();
    old_contacts.insert(change_rid_1.clone(), nearby_asteroid.clone());
    old_contacts.insert(change_rid_2.clone(), nearby_ship.clone());
    old_contacts.insert(change_rid_3.clone(), far_away_money.clone());

    let mut current_position_clone = current_position.clone();
    current_position_clone.x += 2.0;
    let new_vector_to = vector_between(&current_position, &current_position_clone);
    far_away_money.distance = new_vector_to.mag;
    far_away_money.azimuth = new_vector_to.azimuth;
    far_away_money.elevation = new_vector_to.elevation;
    nearby_asteroid.distance = new_vector_to.mag;
    nearby_asteroid.azimuth = new_vector_to.azimuth;
    nearby_asteroid.elevation = new_vector_to.elevation;
    nearby_ship.distance = new_vector_to.mag;
    nearby_ship.azimuth = new_vector_to.azimuth;
    nearby_ship.elevation = new_vector_to.elevation;

    all_positions.record(rid.to_string(), cached(&current_position));
    all_positions.record(nearby_asteroid.entity_id.clone(), cached(&current_position_clone.clone()));
    all_positions.record(nearby_ship.entity_id.clone(), cached(&current_position_clone.clone()));
    all_positions.record(far_away_money.entity_id.clone(), cached(&current_position_clone.clone()));

    let changes = radar_updates(
        &rid,
        &radar_receiver,
        &old_contacts,
        &seen_from(&current_position, &all_positions),
    );

    assert_eq!(changes.len(), 3);
    for c in changes {
        match c {
            RadarContactDelta::Add(_rc) => assert!(false),
            RadarContactDelta::Remove(_s) => assert!(false),
            RadarContactDelta::Change(s, _rc) => {
                assert!(s == change_rid_1 || s == change_rid_2 || s == change_rid_3)
            }
        }
    }
}

#[test]
fn test_modify_all_contacts() {
    let rid = "decs.components.the_shard.myownentity".to_string();
    let current_position = Point { x: 0.0, y: 0.0, z: 0.0 };
    let radar_receiver = RadarReceiver { radius: on_scale(5.0) };
    let mut all_positions = PositionCache::new();

    let vector_to = vector_between(&current_position, &current_position.clone());

    let mut nearby_asteroid = contact("decs.components.the_shard.asteroid", &vector_to);
    let mut nearby_ship = contact("decs.components.the_shard.ship", &vector_to);
    let mut far_away_money = contact("decs.components.the_shard.money", &vector_to);

    let mut old_contacts = ContactBook::new();
    let change_rid_1 = "decs.components.the_shard.myownentity.1".to_string();
    let remove_rid_2 = "decs.components.the_shard.myownentity.2".to_string();
    old_contacts.insert(change_rid_1.clone(), nearby_asteroid.clone());
    old_contacts.insert(remove_rid_2.clone(), far_away_money.clone());
    all_positions.record(rid.to_string(), cached(&current_position));

    // The asteroid moves slightly away: a change.
    let mut current_position_clone = current_position.clone();
    current_position_clone.x += 2.0;
    let mut new_vector_to = vector_between(&current_position, &current_position_clone);
    nearby_asteroid.distance = new_vector_to.mag;
    nearby_asteroid.azimuth = new_vector_to.azimuth;
    nearby_asteroid.elevation = new_vector_to.elevation;
    all_positions.record(nearby_asteroid.entity_id.clone(), cached(&current_position_clone.clone()));

    // The money moves very far away: a removal.
    current_position_clone.x += 500.0;
    new_vector_to = vector_between(&current_position, &current_position_clone);
    far_away_money.distance = new_vector_to.mag;
    far_away_money.azimuth = new_vector_to.azimuth;
    far_away_money.elevation = new_vector_to.elevation;
    all_positions.record(far_away_money.entity_id.clone(), cached(&current_position_clone.clone()));

    // A ship nearby that was no contact before: an addition.
    new_vector_to = vector_between(&current_position, &current_position.clone());
    nearby_ship.distance = new_vector_to.mag;
    nearby_ship.azimuth = new_vector_to.azimuth;
    nearby_ship.elevation = new_vector_to.elevation;
    all_positions.record(nearby_ship.entity_id.clone(), cached(&current_position.clone()));

    let changes = radar_updates(
        &rid,
        &radar_receiver,
        &old_contacts,
        &seen_from(&current_position, &all_positions),
    );

    assert_eq!(changes.len(), 3);
    for c in changes {
        match c {
            RadarContactDelta::Add(rc) => {
                assert!(rc.entity_id == "decs.components.the_shard.ship")
            }
            RadarContactDelta::Remove(s) => assert_eq!(s, remove_rid_2),
            RadarContactDelta::Change(s, _rc) => assert_eq!(s, change_rid_1),
        }
    }
}

fn sighting(entity_id: &str, mag: u64, azimuth: i64, elevation: i64) -> Sighting {
    Sighting { entity_id: entity_id.to_string(), vector: TargetVector { mag, azimuth, elevation } }
}

fn stored_contact(entity_id: &str) -> RadarContact {
    RadarContact { entity_id: entity_id.to_string(), distance: 1, azimuth: 2, elevation: 3 }
}

#[test]
fn boundary_counts_as_inside() {
    assert!(within_radius(5, 5));
    assert!(within_radius(4, 5));
    assert!(within_radius(0, 0));
    assert!(!within_radius(6, 5));
    assert!(!within_radius(0, -1));
    assert!(!within_radius(0, i64::MIN));
    assert!(within_radius(i64::MAX as u64, i64::MAX));
    assert!(!within_radius(i64::MAX as u64 + 1, i64::MAX));
    assert!(!within_radius(u64::MAX, i64::MAX));
    assert!(!within_radius(u64::MAX, -1));
}

#[test]
fn candidates_at_origin_are_added_and_the_far_one_is_not() {
    let sightings = vec![
        sighting("me", 0, 0, 0),
        sighting("asteroid", 0, 0, 0),
        sighting("ship", 0, 0, 0),
        sighting("money", 500, 90, 0),
    ];
    let changes =
        radar_updates("me", &RadarReceiver { radius: 5 }, &ContactBook::new(), &sightings);
    assert_eq!(
        changes,
        vec![
            RadarContactDelta::Add(RadarContact {
                entity_id: "asteroid".to_string(),
                distance: 0,
                azimuth: 0,
                elevation: 0,
            }),
            RadarContactDelta::Add(RadarContact {
                entity_id: "ship".to_string(),
                distance: 0,
                azimuth: 0,
                elevation: 0,
            }),
        ]
    );
}

#[test]
fn contacts_out_of_range_are_removed_under_their_storage_ids() {
    let mut book = ContactBook::new();
    book.insert("rid1".to_string(), stored_contact("asteroid"));
    book.insert("rid2".to_string(), stored_contact("ship"));
    let sightings = vec![sighting("ship", 500, 0, 0), sighting("asteroid", 500, 0, 0)];
    let changes = radar_updates("me", &RadarReceiver { radius: 5 }, &book, &sightings);
    assert_eq!(
        changes,
        vec![
            RadarContactDelta::Remove("rid2".to_string()),
            RadarContactDelta::Remove("rid1".to_string()),
        ]
    );
}

#[test]
fn contact_in_range_is_changed_with_the_geometry_of_its_sighting() {
    let mut book = ContactBook::new();
    book.insert("rid:1".to_string(), stored_contact("asteroid"));
    let sightings = vec![sighting("asteroid", 5, 17, -4)];
    let changes = radar_updates("me", &RadarReceiver { radius: 5 }, &book, &sightings);
    assert_eq!(
        changes,
        vec![RadarContactDelta::Change(
            "rid:1".to_string(),
            RadarContact {
                entity_id: "asteroid".to_string(),
                distance: 5,
                azimuth: 17,
                elevation: -4,
            },
        )]
    );
}

#[test]
fn new_candidate_out_of_range_gives_no_change() {
    let sightings = vec![sighting("asteroid", 6, 0, 0)];
    let changes =
        radar_updates("me", &RadarReceiver { radius: 5 }, &ContactBook::new(), &sightings);
    assert!(changes.is_empty());
}

#[test]
fn the_sensor_itself_is_no_candidate() {
    let mut book = ContactBook::new();
    book.insert("rid1".to_string(), stored_contact("me"));
    let sightings = vec![sighting("me", 0, 0, 0)];
    let near = radar_updates("me", &RadarReceiver { radius: 5 }, &book, &sightings);
    assert!(near.is_empty());
    let far = radar_updates("me", &RadarReceiver { radius: -1 }, &book, &sightings);
    assert!(far.is_empty());
    let bare = radar_updates("me", &RadarReceiver { radius: 5 }, &ContactBook::new(), &sightings);
    assert!(bare.is_empty());
}

#[test]
fn a_contact_without_a_cached_position_gives_no_change() {
    let mut book = ContactBook::new();
    book.insert("rid1".to_string(), stored_contact("asteroid"));
    let changes = radar_updates("me", &RadarReceiver { radius: 5 }, &book, &Vec::new());
    assert!(changes.is_empty());
}

#[test]
fn contacts_are_matched_by_entity_and_the_first_holder_wins() {
    let mut book = ContactBook::new();
    book.insert("asteroid".to_string(), stored_contact("ship"));
    book.insert("second".to_string(), stored_contact("ship"));
    let sightings = vec![sighting("ship", 9, 0, 0), sighting("asteroid", 1, 0, 0)];
    let changes = radar_updates("me", &RadarReceiver { radius: 5 }, &book, &sightings);
    assert_eq!(
        changes,
        vec![
            RadarContactDelta::Remove("asteroid".to_string()),
            RadarContactDelta::Add(RadarContact {
                entity_id: "asteroid".to_string(),
                distance: 1,
                azimuth: 0,
                elevation: 0,
            }),
        ]
    );
}

#[test]
fn a_second_run_on_the_same_inputs_gives_the_same_changes() {
    let mut book = ContactBook::new();
    book.insert("rid1".to_string(), stored_contact("asteroid"));
    book.insert("rid2".to_string(), stored_contact("money"));
    let sightings = vec![
        sighting("me", 0, 0, 0),
        sighting("asteroid", 2, 1, 1),
        sighting("money", 502, 1, 1),
        sighting("ship", 0, 0, 0),
    ];
    let receiver = RadarReceiver { radius: 5 };
    let first = radar_updates("me", &receiver, &book, &sightings);
    let second = radar_updates("me", &receiver, &book, &sightings);
    assert_eq!(first.len(), 3);
    assert_eq!(first, second);
}

#[test]
fn no_storage_id_and_no_new_entity_is_named_twice() {
    let mut book = ContactBook::new();
    book.insert("rid1".to_string(), stored_contact("asteroid"));
    book.insert("rid2".to_string(), stored_contact("money"));
    let mut all_positions = PositionCache::new();
    for (entity_id, x) in [("asteroid", 2), ("money", 900), ("ship", 1), ("asteroid", 3)] {
        all_positions.record(entity_id.to_string(), Position { x, y: 0, z: 0 });
    }
    let snapshot = all_positions.snapshot();
    let vectors: Vec<TargetVector> = snapshot
        .iter()
        .map(|entry| TargetVector { mag: entry.position.x as u64, azimuth: 0, elevation: 0 })
        .collect();
    let sightings = sightings_of(&snapshot, &vectors).unwrap();
    let changes = radar_updates("me", &RadarReceiver { radius: 5 }, &book, &sightings);
    assert_eq!(
        changes,
        vec![
            RadarContactDelta::Change(
                "rid1".to_string(),
                RadarContact {
                    entity_id: "asteroid".to_string(),
                    distance: 3,
                    azimuth: 0,
                    elevation: 0,
                },
            ),
            RadarContactDelta::Remove("rid2".to_string()),
            RadarContactDelta::Add(RadarContact {
                entity_id: "ship".to_string(),
                distance: 1,
                azimuth: 0,
                elevation: 0,
            }),
        ]
    );
}

#[test]
fn book_overwrites_what_is_stored_under_an_identifier() {
    let mut book = ContactBook::new();
    assert_eq!(book.len(), 0);
    assert!(book.entry(0).is_none());
    book.insert("rid1".to_string(), stored_contact("asteroid"));
    book.insert("rid2".to_string(), stored_contact("ship"));
    book.insert("rid1".to_string(), stored_contact("money"));
    assert_eq!(book.len(), 2);
    assert_eq!(book.entry(0).unwrap().storage_id, "rid1");
    assert_eq!(book.entry(0).unwrap().contact.entity_id, "money");
    assert_eq!(book.entry(1).unwrap().storage_id, "rid2");
    assert!(book.entry(2).is_none());
    assert_eq!(book.find_holder(&"ship".to_string()), Some(1));
    assert_eq!(book.find_holder(&"asteroid".to_string()), None);
}
