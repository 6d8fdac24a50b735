use scene3d::math::Mat4;
use scene3d::math::ONE_BITS;
use scene3d::math::Vec3;
use scene3d::object3d::HasObject3D;
use scene3d::object3d::Object3D;

#[test]
fn fresh_nodes_are_unequal() {
    let a = Object3D::new();
    let b = Object3D::new();
    assert_ne!(a.id, b.id);
    assert!(a != b);
}

#[test]
fn node_equals_itself_whatever_its_transform() {
    let mut a = Object3D::new();
    a.translate_x(2.5f32.to_bits());
    assert!(a == a);
    // A distinct node with identical transform fields is still unequal.
    let b = Object3D::new();
    assert_eq!(b.position, Vec3 { x: 0, y: 0, z: 0 });
    let c = Object3D::new();
    assert_eq!(c.position, b.position);
    assert_eq!(c.quaternion, b.quaternion);
    assert_eq!(c.scale, b.scale);
    assert!(b != c);
}

#[test]
fn attach_sets_both_links() {
    let mut p = Object3D::new();
    let mut c = Object3D::new();
    Object3D::add(&mut p, &mut c);
    assert_eq!(c.parent, Some(p.id));
    assert_eq!(p.children, vec![c.id]);
}

#[test]
fn attach_then_detach_round_trip() {
    let mut p = Object3D::new();
    let mut c1 = Object3D::new();
    let mut c2 = Object3D::new();
    Object3D::add(&mut p, &mut c1);
    Object3D::add(&mut p, &mut c2);
    let found = p.remove(&mut c1);
    assert!(found);
    assert_eq!(c1.parent, None);
    // Exactly one occurrence of c1 is gone; the other child is still there.
    assert_eq!(p.children, vec![c2.id]);
    assert_eq!(c2.parent, Some(p.id));
}

#[test]
fn detach_missing_child_returns_false_and_changes_nothing() {
    let mut other = Object3D::new();
    let mut p = Object3D::new();
    let mut stray = Object3D::new();
    let mut kept = Object3D::new();
    Object3D::add(&mut other, &mut stray);
    Object3D::add(&mut p, &mut kept);
    let found = p.remove(&mut stray);
    assert!(!found);
    assert_eq!(stray.parent, Some(other.id));
    assert_eq!(p.children, vec![kept.id]);
    assert_eq!(other.children, vec![stray.id]);
}

#[test]
fn attach_twice_appends_twice() {
    let mut p = Object3D::new();
    let mut c = Object3D::new();
    Object3D::add(&mut p, &mut c);
    Object3D::add(&mut p, &mut c);
    assert_eq!(p.children, vec![c.id, c.id]);
    let found = p.remove(&mut c);
    assert!(found);
    assert_eq!(p.children, vec![c.id]);
    assert_eq!(c.parent, None);
}

#[test]
fn new_node_defaults() {
    let n = Object3D::new();
    assert_eq!(n.name, "");
    assert!(n.children.is_empty());
    assert_eq!(n.parent, None);
    assert_eq!(n.up, Vec3 { x: 0, y: ONE_BITS, z: 0 });
    assert_eq!(n.position, Vec3 { x: 0, y: 0, z: 0 });
    assert_eq!(n.quaternion.x, 0);
    assert_eq!(n.quaternion.y, 0);
    assert_eq!(n.quaternion.z, 0);
    assert_eq!(n.quaternion.w, ONE_BITS);
    assert_eq!(n.scale, Vec3 { x: ONE_BITS, y: ONE_BITS, z: ONE_BITS });
    assert!(n.matrix_auto_update);
    assert!(!n.matrix_world_needs_update);
    let identity = glam::Mat4::IDENTITY.to_cols_array().map(f32::to_bits);
    assert_eq!(n.matrix, Mat4 { e: identity });
    assert_eq!(n.matrix_world, Mat4 { e: identity });
    assert_eq!(n.layers, 1);
    assert!(n.visible);
    assert!(!n.cast_shadow);
    assert!(!n.receive_shadow);
    assert!(n.frustum_culled);
    assert_eq!(n.render_order, 0);
}

#[test]
fn new_with_defaults_stores_the_configuration() {
    let up = Vec3 { x: 0, y: 0, z: ONE_BITS };
    let n = Object3D::new_with_defaults(up, false);
    assert_eq!(n.up, up);
    assert!(!n.matrix_auto_update);
}

#[test]
fn get_object3d_hands_out_the_node() {
    let mut n = Object3D::new();
    let id = n.id;
    assert_eq!(n.get_object3d().id, id);
    n.get_object3d_mut().render_order = 7;
    assert_eq!(n.render_order, 7);
}
