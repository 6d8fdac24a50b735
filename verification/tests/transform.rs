use scene3d::math::Euler;
use scene3d::math::Mat4;
use scene3d::math::Quat;
use scene3d::math::Vec3;
use scene3d::object3d::Object3D;

fn v3(x: f32, y: f32, z: f32) -> Vec3 {
    Vec3 { x: x.to_bits(), y: y.to_bits(), z: z.to_bits() }
}

fn gv(v: Vec3) -> glam::Vec3 {
    glam::Vec3::new(f32::from_bits(v.x), f32::from_bits(v.y), f32::from_bits(v.z))
}

fn gq(q: Quat) -> glam::Quat {
    glam::Quat::from_xyzw(
        f32::from_bits(q.x),
        f32::from_bits(q.y),
        f32::from_bits(q.z),
        f32::from_bits(q.w),
    )
}

fn qbits(g: glam::Quat) -> Quat {
    let a = g.to_array();
    Quat { x: a[0].to_bits(), y: a[1].to_bits(), z: a[2].to_bits(), w: a[3].to_bits() }
}

fn mbits(g: glam::Mat4) -> Mat4 {
    Mat4 { e: g.to_cols_array().map(f32::to_bits) }
}

fn gm(m: &Mat4) -> glam::Mat4 {
    glam::Mat4::from_cols_array(&m.e.map(f32::from_bits))
}

fn assert_vec_close(v: Vec3, expected: glam::Vec3) {
    let got = gv(v);
    assert!(
        (got - expected).length() < 1e-4,
        "expected {expected}, got {got}"
    );
}

fn assert_quat_close(q: Quat, expected: glam::Quat) {
    let got = gq(q);
    assert!(
        (got.x - expected.x).abs() < 1e-5
            && (got.y - expected.y).abs() < 1e-5
            && (got.z - expected.z).abs() < 1e-5
            && (got.w - expected.w).abs() < 1e-5,
        "expected {expected}, got {got}"
    );
}

#[test]
fn rotate_x_round_trip_restores_orientation() {
    let mut n = Object3D::new();
    // Start from a non-trivial orientation.
    n.set_rotation_from_euler(&Euler {
        x: 0.3f32.to_bits(),
        y: 0.5f32.to_bits(),
        z: 0.9f32.to_bits(),
    });
    let before = gq(n.quaternion);
    n.rotate_x(1.234f32.to_bits());
    n.rotate_x((-1.234f32).to_bits());
    assert_quat_close(n.quaternion, before);
}

#[test]
fn rotate_y_and_z_round_trips_restore_orientation() {
    let mut n = Object3D::new();
    n.set_rotation_from_axis_angle(&v3(0.0, 0.0, 1.0), 0.7f32.to_bits());
    let before = gq(n.quaternion);
    n.rotate_y(0.8f32.to_bits());
    n.rotate_y((-0.8f32).to_bits());
    n.rotate_z(2.1f32.to_bits());
    n.rotate_z((-2.1f32).to_bits());
    assert_quat_close(n.quaternion, before);
}

#[test]
fn translate_x_round_trip_restores_position() {
    let mut n = Object3D::new();
    n.position = v3(1.0, 2.0, 3.0);
    // Both translations use the same local-axis convention, so the round
    // trip holds whatever the current orientation is.
    n.set_rotation_from_euler(&Euler {
        x: 0.4f32.to_bits(),
        y: 1.1f32.to_bits(),
        z: 0.2f32.to_bits(),
    });
    n.translate_x(2.5f32.to_bits());
    n.translate_x((-2.5f32).to_bits());
    assert_vec_close(n.position, glam::Vec3::new(1.0, 2.0, 3.0));
}

#[test]
fn rotate_then_translate_moves_along_the_rotated_axis() {
    let mut n = Object3D::new();
    // +90 degrees about y maps the local x axis onto world -z.
    n.rotate_y(std::f32::consts::FRAC_PI_2.to_bits());
    n.translate_x(2.0f32.to_bits());
    assert_vec_close(n.position, glam::Vec3::new(0.0, 0.0, -2.0));
}

#[test]
fn translate_y_and_z_move_along_the_axes() {
    let mut n = Object3D::new();
    n.translate_y(2.0f32.to_bits());
    n.translate_z((-3.0f32).to_bits());
    assert_vec_close(n.position, glam::Vec3::new(0.0, 2.0, -3.0));
}

#[test]
fn apply_matrix_left_multiplies_and_recomposes() {
    let mut n = Object3D::new();
    let l = glam::Mat4::from_scale_rotation_translation(
        glam::Vec3::new(2.0, 3.0, 4.0),
        glam::Quat::from_rotation_y(0.6),
        glam::Vec3::new(1.0, 2.0, 3.0),
    );
    n.matrix = mbits(l);
    let m = glam::Mat4::from_rotation_translation(
        glam::Quat::from_rotation_z(0.25),
        glam::Vec3::new(5.0, 0.0, -1.0),
    );
    n.apply_matrix(&mbits(m));

    // The stored local matrix is exactly the product computed by the kernel.
    let product = m * l;
    assert_eq!(n.matrix, mbits(product));

    // The decomposed position/quaternion/scale recompose to the product.
    let recomposed = glam::Mat4::from_scale_rotation_translation(
        gv(n.scale),
        gq(n.quaternion),
        gv(n.position),
    );
    let a = recomposed.to_cols_array();
    let b = product.to_cols_array();
    for i in 0..16 {
        assert!((a[i] - b[i]).abs() < 1e-4, "entry {i}: {} vs {}", a[i], b[i]);
    }
}

#[test]
fn child_world_position_after_one_traversal_pass() {
    let mut r = Object3D::new();
    let mut c = Object3D::new();
    Object3D::add(&mut r, &mut c);
    r.position = v3(1.0, 0.0, 0.0);
    // Emulate the external traversal pass: recompose each local matrix from
    // its node's position/quaternion/scale, then compose world matrices
    // top-down.
    r.matrix = mbits(glam::Mat4::from_scale_rotation_translation(
        gv(r.scale),
        gq(r.quaternion),
        gv(r.position),
    ));
    r.matrix_world = r.matrix;
    c.matrix_world = mbits(gm(&r.matrix_world) * gm(&c.matrix));

    let mut at_origin = v3(0.0, 0.0, 0.0);
    c.local_to_world(&mut at_origin);
    assert_vec_close(at_origin, glam::Vec3::new(1.0, 0.0, 0.0));
}

#[test]
fn look_at_points_the_forward_axis_at_the_target() {
    let mut n = Object3D::new();
    n.look_at(&v3(0.0, 0.0, -1.0));
    // The node's forward axis is -z; it must map onto the target direction.
    let forward = gq(n.quaternion) * glam::Vec3::new(0.0, 0.0, -1.0);
    assert!((forward - glam::Vec3::new(0.0, 0.0, -1.0)).length() < 1e-5);
}

#[test]
fn look_at_along_x_turns_the_forward_axis() {
    let mut n = Object3D::new();
    n.look_at(&v3(5.0, 0.0, 0.0));
    let forward = gq(n.quaternion) * glam::Vec3::new(0.0, 0.0, -1.0);
    assert!((forward - glam::Vec3::new(1.0, 0.0, 0.0)).length() < 1e-5);
    // The position is untouched.
    assert_eq!(n.position, v3(0.0, 0.0, 0.0));
}

#[test]
fn set_rotation_from_quaternion_copies_exactly() {
    let mut n = Object3D::new();
    let q = qbits(glam::Quat::from_rotation_x(0.9));
    n.set_rotation_from_quaternion(&q);
    assert_eq!(n.quaternion, q);
    assert_eq!(n.position, v3(0.0, 0.0, 0.0));
}

#[test]
fn set_rotation_from_euler_matches_the_kernel() {
    let mut n = Object3D::new();
    n.set_rotation_from_euler(&Euler {
        x: std::f32::consts::FRAC_PI_2.to_bits(),
        y: 0,
        z: 0,
    });
    assert_quat_close(n.quaternion, glam::Quat::from_rotation_x(std::f32::consts::FRAC_PI_2));
}

#[test]
fn set_rotation_from_matrix_extracts_the_rotation() {
    let mut n = Object3D::new();
    let m = glam::Mat4::from_rotation_z(std::f32::consts::FRAC_PI_2);
    n.set_rotation_from_matrix(&mbits(m));
    assert_quat_close(n.quaternion, glam::Quat::from_rotation_z(std::f32::consts::FRAC_PI_2));
}

#[test]
fn set_rotation_from_axis_angle_matches_the_kernel() {
    let mut n = Object3D::new();
    n.set_rotation_from_axis_angle(&v3(0.0, 1.0, 0.0), 0.8f32.to_bits());
    assert_quat_close(n.quaternion, glam::Quat::from_rotation_y(0.8));
}

#[test]
fn world_to_local_inverts_the_world_matrix() {
    let mut n = Object3D::new();
    n.matrix_world = mbits(glam::Mat4::from_translation(glam::Vec3::new(1.0, 2.0, 3.0)));
    let mut v = v3(1.0, 2.0, 3.0);
    n.world_to_local(&mut v);
    assert_vec_close(v, glam::Vec3::ZERO);
    n.local_to_world(&mut v);
    assert_vec_close(v, glam::Vec3::new(1.0, 2.0, 3.0));
}

#[test]
fn world_to_local_on_a_singular_matrix_degenerates_to_the_origin() {
    let mut n = Object3D::new();
    n.matrix_world = Mat4 { e: [0; 16] };
    let mut v = v3(3.0, 4.0, 5.0);
    n.world_to_local(&mut v);
    assert_vec_close(v, glam::Vec3::ZERO);
}
