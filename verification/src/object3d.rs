//! The spatial node: one vertex of the scene tree.
//!
//! A node owns its local transform (position, quaternion, scale), caches the
//! derived local and world matrices, and carries the parent/child links of
//! the tree. Links are held as node identifiers: a parent stores the
//! identifiers of its children, a child stores at most one parent
//! identifier, so the back-reference never owns its target and no ownership
//! cycle can arise. The traversal pass that recomputes the cached matrices
//! top-down is outside this crate; the node only stores the flags and
//! matrices that the pass reads and writes.

use vstd::prelude::*;
use vstd::seq_lib::group_to_multiset_ensures;
use vstd::seq_lib::to_multiset_update;
use vstd::multiset::group_multiset_axioms;
use vstd::std_specs::cmp::PartialEqSpec;
use vstd::std_specs::cmp::PartialEqSpecImpl;

use crate::math::Euler;
use crate::math::Mat3;
use crate::math::Mat4;
use crate::math::Quat;
use crate::math::Vec3;
use crate::math::look_at_quat;
use crate::math::look_at_quat_spec;
use crate::math::mat4_decompose;
use crate::math::mat4_decompose_spec;
use crate::math::mat4_inverse_or_zero;
use crate::math::mat4_inverse_or_zero_spec;
use crate::math::mat4_mul;
use crate::math::mat4_mul_spec;
use crate::math::mat4_transform_point;
use crate::math::mat4_transform_point_spec;
use crate::math::quat_from_axis_angle;
use crate::math::quat_from_axis_angle_spec;
use crate::math::quat_from_euler;
use crate::math::quat_from_euler_spec;
use crate::math::quat_from_mat4;
use crate::math::quat_from_mat4_spec;
use crate::math::quat_inverse;
use crate::math::quat_inverse_spec;
use crate::math::quat_mul;
use crate::math::quat_mul_spec;
use crate::math::vec3_add;
use crate::math::vec3_add_spec;
use crate::math::vec3_apply_quat;
use crate::math::vec3_apply_quat_spec;
use crate::math::vec3_scale;
use crate::math::vec3_scale_spec;

verus! {

/// Relies on uuid::Uuid::new_v4: a freshly generated version-4 identifier,
/// random except for its version and variant bits; nothing is assumed of the
/// value, in particular not uniqueness.
#[verifier::external_body]
fn fresh_id() -> u128 {
    uuid::Uuid::new_v4().as_u128()
}

/// Capability of a scene entity that embeds a spatial node: hand the node
/// out for reading and for mutation.
pub trait HasObject3D {
    /// The embedded node, as a spec-level value.
    spec fn object3d_spec(&self) -> Object3D;

    fn get_object3d(&self) -> (r: &Object3D)
        ensures
            *r == self.object3d_spec(),
    ;

    fn get_object3d_mut(&mut self) -> (r: &mut Object3D)
        ensures
            *r == old(self).object3d_spec(),
            final(self).object3d_spec() == *final(r),
    ;
}

/// One vertex of the scene tree.
///
/// The quaternion is the single source of truth for the local rotation:
/// every rotation setter converts its input into a quaternion before
/// storing. The local matrix is either authored directly or, when
/// `matrix_auto_update` holds, recomputed from position, quaternion and
/// scale by the external traversal pass; `matrix_world_needs_update` forces
/// one such recomputation even when `matrix_auto_update` is off. The cached
/// `matrix_world` is only valid once that pass has run.
#[derive(Clone, Debug)]
pub struct Object3D {
    /// Identifier assigned at construction; the sole equality key.
    pub id: u128,
    /// Display label; carries no uniqueness constraint.
    pub name: String,
    /// Identifiers of the children, in insertion order.
    pub children: Vec<u128>,
    /// Secondary reference axis for orientation helpers such as `look_at`.
    pub up: Vec3,
    /// Local offset from the parent.
    pub position: Vec3,
    /// Local rotation.
    pub quaternion: Quat,
    /// Local scale.
    pub scale: Vec3,
    /// When set, the traversal pass recomputes `matrix` from position,
    /// quaternion and scale before composing; when clear, `matrix` is
    /// authoritative as authored.
    pub matrix_auto_update: bool,
    /// One-shot override: forces the traversal pass to recompute once even
    /// when `matrix_auto_update` is clear.
    pub matrix_world_needs_update: bool,
    /// Cache used by the render pass; stored only.
    pub model_view_matrix: Mat4,
    /// Cache used by the render pass; stored only.
    pub normal_matrix: Mat3,
    /// Local matrix: the transform relative to the parent.
    pub matrix: Mat4,
    /// World matrix: the composition of this node's local matrix with the
    /// parent's world matrix, cached by the traversal pass.
    pub matrix_world: Mat4,
    /// Visibility bitmask; stored only.
    pub layers: u32,
    pub visible: bool,
    pub cast_shadow: bool,
    pub receive_shadow: bool,
    pub frustum_culled: bool,
    /// Sort key for rendering; no uniqueness or range is enforced.
    pub render_order: u32,
    /// Identifier of the parent, if attached; a lookup-only back-reference.
    pub parent: Option<u128>,
}

impl HasObject3D for Object3D {
    open spec fn object3d_spec(&self) -> Object3D {
        *self
    }

    fn get_object3d(&self) -> (r: &Object3D) {
        self
    }

    fn get_object3d_mut(&mut self) -> (r: &mut Object3D) {
        self
    }
}

impl PartialEq for Object3D {
    fn eq(&self, other: &Object3D) -> bool {
        self.id == other.id
    }
}

impl PartialEqSpecImpl for Object3D {
    open spec fn obeys_eq_spec() -> bool {
        true
    }

    open spec fn eq_spec(&self, other: &Object3D) -> bool {
        self.id == other.id
    }
}

/// What a freshly constructed node looks like, apart from its identifier:
/// identity transform, identity matrices, no links, default flags.
pub open spec fn new_post(r: Object3D, up: Vec3, matrix_auto_update: bool) -> bool {
    &&& r.name@ == Seq::<char>::empty()
    &&& r.children@ == Seq::<u128>::empty()
    &&& r.parent is None
    &&& r.up == up
    &&& r.position == Vec3::spec_zero()
    &&& r.quaternion == Quat::spec_identity()
    &&& r.scale == Vec3::spec_one()
    &&& r.matrix_auto_update == matrix_auto_update
    &&& !r.matrix_world_needs_update
    &&& r.model_view_matrix == Mat4::spec_identity()
    &&& r.normal_matrix == Mat3::spec_identity()
    &&& r.matrix == Mat4::spec_identity()
    &&& r.matrix_world == Mat4::spec_identity()
    &&& r.layers == 1u32
    &&& r.visible
    &&& !r.cast_shadow
    &&& !r.receive_shadow
    &&& r.frustum_culled
    &&& r.render_order == 0u32
}

/// Effect of attaching: the child's parent link points at the parent node,
/// one occurrence of the child's identifier is appended to the parent's
/// children, and nothing else changes on either node.
pub open spec fn attach_post(p0: Object3D, c0: Object3D, p1: Object3D, c1: Object3D) -> bool {
    &&& c1 == (Object3D { parent: Some(p0.id), ..c0 })
    &&& p1.children@ == p0.children@.push(c0.id)
    &&& p1 == (Object3D { children: p1.children, ..p0 })
}

/// Effect of detaching: when the child's identifier occurs among the node's
/// children, exactly one occurrence is removed (order among the remaining
/// children is not preserved), the child's parent link is cleared, and
/// nothing else changes; otherwise both nodes are left exactly as they were.
pub open spec fn detach_post(
    n0: Object3D,
    c0: Object3D,
    n1: Object3D,
    c1: Object3D,
    found: bool,
) -> bool {
    &&& found == n0.children@.contains(c0.id)
    &&& if found {
        &&& c1 == (Object3D { parent: None, ..c0 })
        &&& n1.children@.to_multiset() == n0.children@.to_multiset().remove(c0.id)
        &&& n1 == (Object3D { children: n1.children, ..n0 })
    } else {
        &&& n1 == n0
        &&& c1 == c0
    }
}

impl Object3D {
    /// A fresh node with the given defaults for the up axis and the
    /// auto-update flag.
    pub fn new_with_defaults(up: Vec3, matrix_auto_update: bool) -> (r: Object3D)
        ensures
            new_post(r, up, matrix_auto_update),
    {
        Object3D {
            id: fresh_id(),
            name: String::new(),
            children: Vec::new(),
            up,
            position: Vec3::zero(),
            quaternion: Quat::identity(),
            scale: Vec3::one(),
            matrix_auto_update,
            matrix_world_needs_update: false,
            model_view_matrix: Mat4::identity(),
            normal_matrix: Mat3::identity(),
            matrix: Mat4::identity(),
            matrix_world: Mat4::identity(),
            layers: 1,
            visible: true,
            cast_shadow: false,
            receive_shadow: false,
            frustum_culled: true,
            render_order: 0,
            parent: None,
        }
    }

    /// A fresh node with the standard defaults: up along y, auto-update on.
    pub fn new() -> (r: Object3D)
        ensures
            new_post(r, Vec3::spec_unit_y(), true),
    {
        Object3D::new_with_defaults(Vec3::unit_y(), true)
    }

    /// Left-multiplies the local matrix by `m` and decomposes the result
    /// back into position, quaternion and scale, so that the three fields
    /// and the matrix describe the same transform again.
    pub fn apply_matrix(&mut self, m: &Mat4)
        ensures
            final(self).matrix == mat4_mul_spec(*m, old(self).matrix),
            final(self).scale == mat4_decompose_spec(final(self).matrix).0,
            final(self).quaternion == mat4_decompose_spec(final(self).matrix).1,
            final(self).position == mat4_decompose_spec(final(self).matrix).2,
            *final(self) == (Object3D {
                position: final(self).position,
                quaternion: final(self).quaternion,
                scale: final(self).scale,
                matrix: final(self).matrix,
                ..*old(self)
            }),
    {
        self.matrix = mat4_mul(m, &self.matrix);
        let (s, q, t) = mat4_decompose(&self.matrix);
        self.scale = s;
        self.quaternion = q;
        self.position = t;
    }

    /// Overwrites the quaternion with the rotation about `axis` (expected
    /// normalized) by the angle whose bit pattern is `angle_bits`, in
    /// radians. No other field changes.
    pub fn set_rotation_from_axis_angle(&mut self, axis: &Vec3, angle_bits: u32)
        ensures
            *final(self) == (Object3D {
                quaternion: quat_from_axis_angle_spec(*axis, angle_bits),
                ..*old(self)
            }),
    {
        self.quaternion = quat_from_axis_angle(axis, angle_bits);
    }

    /// Overwrites the quaternion with the rotation described by the euler
    /// angles. No other field changes.
    pub fn set_rotation_from_euler(&mut self, euler: &Euler)
        ensures
            *final(self) == (Object3D { quaternion: quat_from_euler_spec(*euler), ..*old(self) }),
    {
        self.quaternion = quat_from_euler(euler);
    }

    /// Overwrites the quaternion with the rotation held in the upper 3x3
    /// part of `m`, which is expected to be a pure rotation. No other field
    /// changes.
    pub fn set_rotation_from_matrix(&mut self, m: &Mat4)
        ensures
            *final(self) == (Object3D { quaternion: quat_from_mat4_spec(*m), ..*old(self) }),
    {
        self.quaternion = quat_from_mat4(m);
    }

    /// Overwrites the quaternion with a copy of `q`. No other field changes.
    pub fn set_rotation_from_quaternion(&mut self, q: &Quat)
        ensures
            *final(self) == (Object3D { quaternion: *q, ..*old(self) }),
    {
        self.quaternion = *q;
    }

    /// Composes a rotation about `axis` (a direction in the node's own local
    /// space, expected normalized) onto the current rotation:
    /// `quaternion * rotation(axis, angle)`. No other field changes.
    pub fn rotate_on_axis(&mut self, axis: &Vec3, angle_bits: u32)
        ensures
            *final(self) == (Object3D {
                quaternion: quat_mul_spec(
                    old(self).quaternion,
                    quat_from_axis_angle_spec(*axis, angle_bits),
                ),
                ..*old(self)
            }),
    {
        let q1 = quat_from_axis_angle(axis, angle_bits);
        self.quaternion = quat_mul(&self.quaternion, &q1);
    }

    /// Rotates about the local x axis.
    pub fn rotate_x(&mut self, angle_bits: u32)
        ensures
            *final(self) == (Object3D {
                quaternion: quat_mul_spec(
                    old(self).quaternion,
                    quat_from_axis_angle_spec(Vec3::spec_unit_x(), angle_bits),
                ),
                ..*old(self)
            }),
    {
        let v1 = Vec3::unit_x();
        self.rotate_on_axis(&v1, angle_bits);
    }

    /// Rotates about the local y axis.
    pub fn rotate_y(&mut self, angle_bits: u32)
        ensures
            *final(self) == (Object3D {
                quaternion: quat_mul_spec(
                    old(self).quaternion,
                    quat_from_axis_angle_spec(Vec3::spec_unit_y(), angle_bits),
                ),
                ..*old(self)
            }),
    {
        let v1 = Vec3::unit_y();
        self.rotate_on_axis(&v1, angle_bits);
    }

    /// Rotates about the local z axis.
    pub fn rotate_z(&mut self, angle_bits: u32)
        ensures
            *final(self) == (Object3D {
                quaternion: quat_mul_spec(
                    old(self).quaternion,
                    quat_from_axis_angle_spec(Vec3::spec_unit_z(), angle_bits),
                ),
                ..*old(self)
            }),
    {
        let v1 = Vec3::unit_z();
        self.rotate_on_axis(&v1, angle_bits);
    }

    /// Moves the position along `axis` — a direction in the node's own local
    /// space, rotated into world terms by the current quaternion — by the
    /// distance whose bit pattern is `distance_bits`. No other field
    /// changes.
    pub fn translate_on_axis(&mut self, axis: &Vec3, distance_bits: u32)
        ensures
            *final(self) == (Object3D {
                position: vec3_add_spec(
                    old(self).position,
                    vec3_scale_spec(
                        vec3_apply_quat_spec(old(self).quaternion, *axis),
                        distance_bits,
                    ),
                ),
                ..*old(self)
            }),
    {
        let v1 = vec3_apply_quat(&self.quaternion, axis);
        let v1 = vec3_scale(&v1, distance_bits);
        self.position = vec3_add(&self.position, &v1);
    }

    /// Translates along the local x axis.
    pub fn translate_x(&mut self, distance_bits: u32)
        ensures
            *final(self) == (Object3D {
                position: vec3_add_spec(
                    old(self).position,
                    vec3_scale_spec(
                        vec3_apply_quat_spec(old(self).quaternion, Vec3::spec_unit_x()),
                        distance_bits,
                    ),
                ),
                ..*old(self)
            }),
    {
        let v1 = Vec3::unit_x();
        self.translate_on_axis(&v1, distance_bits);
    }

    /// Translates along the local y axis.
    pub fn translate_y(&mut self, distance_bits: u32)
        ensures
            *final(self) == (Object3D {
                position: vec3_add_spec(
                    old(self).position,
                    vec3_scale_spec(
                        vec3_apply_quat_spec(old(self).quaternion, Vec3::spec_unit_y()),
                        distance_bits,
                    ),
                ),
                ..*old(self)
            }),
    {
        let v1 = Vec3::unit_y();
        self.translate_on_axis(&v1, distance_bits);
    }

    /// Translates along the local z axis.
    pub fn translate_z(&mut self, distance_bits: u32)
        ensures
            *final(self) == (Object3D {
                position: vec3_add_spec(
                    old(self).position,
                    vec3_scale_spec(
                        vec3_apply_quat_spec(old(self).quaternion, Vec3::spec_unit_z()),
                        distance_bits,
                    ),
                ),
                ..*old(self)
            }),
    {
        let v1 = Vec3::unit_z();
        self.translate_on_axis(&v1, distance_bits);
    }

    /// Transforms `vector` from this node's local space to world space by
    /// the cached world matrix.
    pub fn local_to_world(&self, vector: &mut Vec3)
        ensures
            *final(vector) == mat4_transform_point_spec(self.matrix_world, *old(vector)),
    {
        let r = mat4_transform_point(&self.matrix_world, vector);
        *vector = r;
    }

    /// Transforms `vector` from world space to this node's local space by
    /// the inverse of the cached world matrix; on a singular world matrix
    /// the inverse is the all-zero matrix, so the result degenerates to the
    /// origin instead of failing.
    pub fn world_to_local(&self, vector: &mut Vec3)
        ensures
            *final(vector) == mat4_transform_point_spec(
                mat4_inverse_or_zero_spec(self.matrix_world),
                *old(vector),
            ),
    {
        let m1 = mat4_inverse_or_zero(&self.matrix_world);
        let r = mat4_transform_point(&m1, vector);
        *vector = r;
    }

    /// Rotates the node so that its forward axis (negative z, the
    /// right-handed camera convention) points from its current position
    /// toward `target`, with `up` as the secondary reference axis. The
    /// position does not change; degenerate targets are delegated to the
    /// math kernel.
    pub fn look_at(&mut self, target: &Vec3)
        ensures
            *final(self) == (Object3D {
                quaternion: quat_inverse_spec(
                    look_at_quat_spec(old(self).position, *target, old(self).up),
                ),
                ..*old(self)
            }),
    {
        let view = look_at_quat(&self.position, target, &self.up);
        self.quaternion = quat_inverse(&view);
    }

    /// Attaches `child` under `parent`: one logical transaction that sets
    /// the child's parent link and appends the child's identifier to the
    /// parent's children. It neither checks whether the child is already
    /// attached elsewhere nor dedupes: attaching the same pair twice leaves
    /// the child's identifier in the children twice.
    pub fn add(parent: &mut Object3D, child: &mut Object3D)
        ensures
            attach_post(*old(parent), *old(child), *final(parent), *final(child)),
    {
        child.parent = Some(parent.id);
        parent.children.push(child.id);
    }

    /// Detaches `object` from this node: scans the children for the
    /// object's identifier and, when present, removes one occurrence (by
    /// swapping the last entry into its place, so the order among the
    /// remaining children is not preserved) and clears the object's parent
    /// link. Returns whether a match was found; when none is, both nodes
    /// are left unchanged.
    pub fn remove(&mut self, object: &mut Object3D) -> (found: bool)
        ensures
            detach_post(*old(self), *old(object), *final(self), *final(object), found),
            found ==> (exists|i: int|
                0 <= i < old(self).children@.len()
                    && old(self).children@[i] == old(object).id
                    && final(self).children@ == old(self).children@.update(
                    i,
                    old(self).children@.last(),
                ).drop_last()),
    {
        let target = object.id;
        let n = self.children.len();
        let mut i: usize = 0;
        while i < n && self.children[i] != target
            invariant
                n == self.children@.len(),
                i <= n,
                target == old(object).id,
                *self == *old(self),
                *object == *old(object),
                forall|j: int| 0 <= j < i ==> old(self).children@[j] != target,
            decreases n - i,
        {
            i = i + 1;
        }
        if i < n {
            self.children.swap_remove(i);
            object.parent = None;
            proof {
                lemma_swap_remove_to_multiset(old(self).children@, i as int);
            }
            true
        } else {
            proof {
                broadcast use group_to_multiset_ensures;

                assert(!old(self).children@.contains(target));
            }
            false
        }
    }
}

/// Removing an element of a sequence by swapping the last element into its
/// place takes exactly one occurrence of that element out of the sequence's
/// multiset.
proof fn lemma_swap_remove_to_multiset(s: Seq<u128>, i: int)
    requires
        0 <= i < s.len(),
    ensures
        s.update(i, s.last()).drop_last().to_multiset() == s.to_multiset().remove(s[i]),
{
    broadcast use group_to_multiset_ensures;
    broadcast use to_multiset_update;
    broadcast use group_multiset_axioms;

    let t = s.update(i, s.last());
    assert(t.drop_last() =~= t.remove(s.len() - 1));
    assert(t.last() == s.last());
    assert(t.to_multiset() == s.to_multiset().insert(s.last()).remove(s[i]));
    assert(t.remove(s.len() - 1).to_multiset() == t.to_multiset().remove(t[s.len() - 1]));
    assert(s.to_multiset().insert(s.last()).remove(s[i]).remove(s.last())
        =~= s.to_multiset().remove(s[i]));
}

/// Law: attaching a child and then detaching the same child restores the
/// child's parent link to none and removes exactly one occurrence of the
/// child's identifier from the parent's children, leaving every other child
/// entry present (order aside) and every other field of both nodes as it
/// was. The detach is guaranteed to find the child.
pub proof fn lemma_attach_then_detach(
    p0: Object3D,
    c0: Object3D,
    p1: Object3D,
    c1: Object3D,
    p2: Object3D,
    c2: Object3D,
    found: bool,
)
    requires
        attach_post(p0, c0, p1, c1),
        detach_post(p1, c1, p2, c2, found),
    ensures
        found,
        c2.parent is None,
        c2 == (Object3D { parent: None, ..c0 }),
        p2.children@.to_multiset() == p0.children@.to_multiset(),
        p2 == (Object3D { children: p2.children, ..p0 }),
{
    broadcast use group_to_multiset_ensures;
    broadcast use group_multiset_axioms;

    assert(p1.children@[p1.children@.len() - 1] == c0.id);
    assert(p1.children@.contains(c1.id));
    assert(p1.children@.to_multiset() == p0.children@.to_multiset().insert(c0.id));
    assert(p0.children@.to_multiset().insert(c0.id).remove(c0.id) =~= p0.children@.to_multiset());
}

/// Law: node equality is identity equality. A node always equals itself, and
/// two nodes are equal exactly when they carry the same identifier, however
/// alike or unlike every transform field is.
pub proof fn lemma_equality_is_identity(a: Object3D, b: Object3D)
    ensures
        PartialEqSpec::eq_spec(&a, &a),
        PartialEqSpec::eq_spec(&a, &b) <==> a.id == b.id,
{
}

} // verus!
