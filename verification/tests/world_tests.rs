use gears::component::{Transform, Velocity};
use gears::quaternion::Quaternion;
use gears::vector::Vector3;
use gears::world::World;

fn transform_at(x: f32, y: f32, z: f32) -> Transform {
    Transform {
        position: Vector3::new(x.to_bits(), y.to_bits(), z.to_bits()),
        rotation: Quaternion::identity(),
        scale: Vector3::new(1.0f32.to_bits(), 1.0f32.to_bits(), 1.0f32.to_bits()),
    }
}

fn velocity_of(dx: f32, dy: f32, dz: f32) -> Velocity {
    Velocity {
        dx: dx.to_bits(),
        dy: dy.to_bits(),
        dz: dz.to_bits(),
    }
}

#[test]
fn insert_returns_fresh_sequential_identifiers() {
    let mut w = World::new();
    assert_eq!(w.len(), 0);

    let a = w.insert(transform_at(1.0, 0.0, 0.0), velocity_of(0.0, 0.0, 0.0));
    let b = w.insert(transform_at(2.0, 0.0, 0.0), velocity_of(0.0, 0.0, 0.0));
    let c = w.insert(transform_at(3.0, 0.0, 0.0), velocity_of(0.0, 0.0, 0.0));

    assert_eq!(a, 0);
    assert_eq!(b, 1);
    assert_eq!(c, 2);
    assert_ne!(a, b);
    assert_ne!(b, c);
    assert_eq!(w.len(), 3);
}

#[test]
fn queries_list_entities_in_insertion_order() {
    let mut w = World::new();
    w.insert(transform_at(1.0, 10.0, 0.0), velocity_of(0.5, 0.0, 0.0));
    w.insert(transform_at(2.0, 20.0, 0.0), velocity_of(0.25, 0.0, 0.0));

    let ts = w.query_transforms();
    assert_eq!(ts.len(), 2);
    assert_eq!(ts[0].0, 0);
    assert_eq!(f32::from_bits(ts[0].1.position.x), 1.0);
    assert_eq!(ts[1].0, 1);
    assert_eq!(f32::from_bits(ts[1].1.position.y), 20.0);

    let tv = w.query_transform_velocity();
    assert_eq!(tv.len(), 2);
    assert_eq!(tv[0].0, 0);
    assert_eq!(f32::from_bits(tv[0].2.dx), 0.5);
    assert_eq!(tv[1].0, 1);
    assert_eq!(f32::from_bits(tv[1].2.dx), 0.25);
}

#[test]
fn set_position_touches_only_that_entity() {
    let mut w = World::new();
    w.insert(transform_at(1.0, 1.0, 1.0), velocity_of(0.0, 0.0, 0.0));
    w.insert(transform_at(2.0, 2.0, 2.0), velocity_of(0.0, 0.0, 0.0));

    w.set_position(0, Vector3::new(9.0f32.to_bits(), 9.0f32.to_bits(), 9.0f32.to_bits()));

    let first = w.get_transform(0).unwrap();
    let second = w.get_transform(1).unwrap();
    assert_eq!(f32::from_bits(first.position.x), 9.0);
    assert_eq!(f32::from_bits(first.scale.x), 1.0);
    assert_eq!(f32::from_bits(second.position.x), 2.0);
    assert_eq!(f32::from_bits(w.get_velocity(1).unwrap().dx), 0.0);
}

#[test]
fn queries_filter_by_component_possession() {
    let mut w = World::new();
    let full = w.insert(transform_at(1.0, 0.0, 0.0), velocity_of(0.5, 0.0, 0.0));
    let only_t = w.insert_bundle(Some(transform_at(2.0, 0.0, 0.0)), None);
    let only_v = w.insert_bundle(None, Some(velocity_of(0.25, 0.0, 0.0)));
    let bare = w.insert_bundle(None, None);
    assert_eq!(w.len(), 4);

    let ts = w.query_transforms();
    assert_eq!(ts.len(), 2);
    assert_eq!(ts[0].0, full);
    assert_eq!(ts[1].0, only_t);
    assert_eq!(f32::from_bits(ts[1].1.position.x), 2.0);

    let tv = w.query_transform_velocity();
    assert_eq!(tv.len(), 1);
    assert_eq!(tv[0].0, full);
    assert_eq!(f32::from_bits(tv[0].2.dx), 0.5);

    assert!(w.get_transform(only_v).is_none());
    assert!(w.get_velocity(only_t).is_none());
    assert!(w.get_transform(bare).is_none());
}

#[test]
fn later_position_update_wins() {
    let mut w = World::new();
    w.insert(transform_at(0.0, 0.0, 0.0), velocity_of(0.0, 0.0, 0.0));

    let ups = vec![
        (0, Vector3::new(1.0f32.to_bits(), 0.0f32.to_bits(), 0.0f32.to_bits())),
        (0, Vector3::new(2.0f32.to_bits(), 0.0f32.to_bits(), 0.0f32.to_bits())),
        (7, Vector3::new(3.0f32.to_bits(), 0.0f32.to_bits(), 0.0f32.to_bits())),
    ];
    w.apply_position_updates(&ups);

    assert_eq!(w.len(), 1);
    assert_eq!(f32::from_bits(w.get_transform(0).unwrap().position.x), 2.0);
}
