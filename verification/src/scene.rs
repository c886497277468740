//! The scene graph: a strict tree of drawable nodes.
//!
//! Each node owns its children, a pose (translation, per-axis rotation,
//! pivot), an optional drawable binding, and a cached world transform that
//! is valid right after a propagation pass. Propagation walks the tree
//! depth-first, pre-order, composing each node's local transform onto the
//! transform accumulated from its ancestors; draw emission walks it in the
//! same order and yields one draw command per drawable node.

use vstd::prelude::*;
use crate::fixed::COORD_LIMIT;
use crate::matrix::{
    Mat4, Vec3, mat_bounded, mat_mul, spec_identity, spec_mat_mul, spec_rotation_x,
    spec_rotation_y, spec_rotation_z, spec_translation, translation, rotation_x, rotation_y,
    rotation_z, lemma_identity_mul, lemma_rotation_period,
};
use crate::angle::{TURN, lemma_trig_exact};

verus! {

/// A GPU-resident mesh binding: an opaque buffer handle and how many
/// elements a draw of it covers.
#[derive(Clone, Copy, PartialEq, Eq, Structural, Debug)]
pub struct Drawable {
    pub vao_id: u32,
    pub index_count: u32,
}

/// One draw call to hand to the rendering backend: the mesh binding, the
/// clip-space matrix, and the world matrix for world-space shading. The
/// two matrices are distinct uniforms, not one.
#[derive(Clone, Copy, PartialEq, Eq, Structural, Debug)]
pub struct DrawCommand {
    pub vao_id: u32,
    pub index_count: u32,
    pub mvp: Mat4,
    pub model: Mat4,
}

/// A node of the scene graph. `current_transformation_matrix` caches the
/// node's world transform; it is meaningful only right after a
/// propagation pass over the whole tree.
#[derive(PartialEq, Debug)]
pub struct SceneNode {
    pub position: Vec3,
    pub rotation: Vec3,
    pub reference_point: Vec3,
    pub drawable: Option<Drawable>,
    pub children: Vec<SceneNode>,
    pub current_transformation_matrix: Mat4,
}

/// The mathematical shape of a node: the same fields with the children as
/// a sequence.
#[verifier::ext_equal]
pub struct SceneNodeView {
    pub position: Vec3,
    pub rotation: Vec3,
    pub reference_point: Vec3,
    pub drawable: Option<Drawable>,
    pub world_transform: Mat4,
    pub children: Seq<SceneNodeView>,
}

/// The view of a node: its fields, with children viewed in order.
pub open spec fn node_view(n: SceneNode) -> SceneNodeView
    decreases n,
{
    SceneNodeView {
        position: n.position,
        rotation: n.rotation,
        reference_point: n.reference_point,
        drawable: n.drawable,
        world_transform: n.current_transformation_matrix,
        children: node_view_seq(n.children@),
    }
}

/// The views of a sequence of nodes, in order.
pub open spec fn node_view_seq(s: Seq<SceneNode>) -> Seq<SceneNodeView>
    decreases s,
{
    if s.len() == 0 {
        Seq::empty()
    } else {
        node_view_seq(s.drop_last()).push(node_view(s.last()))
    }
}

impl View for SceneNode {
    type V = SceneNodeView;

    open spec fn view(&self) -> SceneNodeView {
        node_view(*self)
    }
}

/// Viewing a sequence of nodes is viewing each node.
pub proof fn lemma_node_view_seq(s: Seq<SceneNode>)
    ensures
        node_view_seq(s).len() == s.len(),
        forall|i: int| 0 <= i < s.len() ==> #[trigger] node_view_seq(s)[i] == node_view(s[i]),
    decreases s,
{
    if s.len() > 0 {
        lemma_node_view_seq(s.drop_last());
    }
}

/// Negate a coordinate; the far edge of the integer range saturates,
/// far beyond the representable coordinate range either way.
pub open spec fn neg_coord_spec(x: i64) -> i64 {
    if x == i64::MIN {
        i64::MAX
    } else {
        (-x) as i64
    }
}

/// The pivot, negated componentwise.
pub open spec fn spec_neg_vec3(v: Vec3) -> Vec3 {
    Vec3 { x: neg_coord_spec(v.x), y: neg_coord_spec(v.y), z: neg_coord_spec(v.z) }
}

/// A node's local transform: translate to its position, then about its
/// pivot rotate by the three Euler angles in x, y, z order. Matrices
/// compose left to right:
/// `T(position) * T(pivot) * Rx * Ry * Rz * T(-pivot)`.
#[verifier::opaque]
pub open spec fn spec_local_transform(n: SceneNodeView) -> Mat4 {
    let t = spec_translation(n.position);
    let o = spec_translation(n.reference_point);
    let rx = spec_rotation_x(n.rotation.x as int);
    let ry = spec_rotation_y(n.rotation.y as int);
    let rz = spec_rotation_z(n.rotation.z as int);
    let io = spec_translation(spec_neg_vec3(n.reference_point));
    spec_mat_mul(spec_mat_mul(spec_mat_mul(spec_mat_mul(spec_mat_mul(t, o), rx), ry), rz), io)
}

/// The local transform reads only the pose: two nodes that agree on
/// position, rotation and pivot share it, whatever else differs.
pub proof fn lemma_local_same_pose(a: SceneNodeView, b: SceneNodeView)
    requires
        a.position == b.position,
        a.rotation == b.rotation,
        a.reference_point == b.reference_point,
    ensures
        spec_local_transform(a) == spec_local_transform(b),
{
    reveal(spec_local_transform);
}

/// A propagation pass: store the incoming transform composed with the
/// node's local transform, then recurse into the children in order with
/// the node's new world transform as their incoming transform.
pub open spec fn spec_propagate(n: SceneNodeView, incoming: Mat4) -> SceneNodeView
    decreases n,
{
    let world = spec_mat_mul(incoming, spec_local_transform(n));
    SceneNodeView {
        position: n.position,
        rotation: n.rotation,
        reference_point: n.reference_point,
        drawable: n.drawable,
        world_transform: world,
        children: spec_propagate_seq(n.children, world),
    }
}

/// Propagation over a sequence of sibling nodes.
pub open spec fn spec_propagate_seq(s: Seq<SceneNodeView>, world: Mat4) -> Seq<SceneNodeView>
    decreases s,
{
    if s.len() == 0 {
        Seq::empty()
    } else {
        spec_propagate_seq(s.drop_last(), world).push(spec_propagate(s.last(), world))
    }
}

/// Propagating a sequence propagates each element.
pub proof fn lemma_propagate_seq(s: Seq<SceneNodeView>, world: Mat4)
    ensures
        spec_propagate_seq(s, world).len() == s.len(),
        forall|i: int|
            0 <= i < s.len() ==> #[trigger] spec_propagate_seq(s, world)[i] == spec_propagate(
                s[i],
                world,
            ),
    decreases s,
{
    if s.len() > 0 {
        lemma_propagate_seq(s.drop_last(), world);
    }
}

/// Every world transform in the tree lies within the saturation range.
pub open spec fn worlds_bounded(n: SceneNodeView) -> bool
    decreases n,
{
    &&& mat_bounded(n.world_transform)
    &&& worlds_bounded_seq(n.children)
}

/// Bounded world transforms over a sequence of sibling nodes.
pub open spec fn worlds_bounded_seq(s: Seq<SceneNodeView>) -> bool
    decreases s,
{
    s.len() == 0 || (worlds_bounded_seq(s.drop_last()) && worlds_bounded(s.last()))
}

/// Each element of a sequence with bounded worlds has bounded worlds.
pub proof fn lemma_worlds_bounded_seq(s: Seq<SceneNodeView>)
    requires
        worlds_bounded_seq(s),
    ensures
        forall|i: int| 0 <= i < s.len() ==> #[trigger] worlds_bounded(s[i]),
    decreases s,
{
    if s.len() > 0 {
        lemma_worlds_bounded_seq(s.drop_last());
        assert forall|i: int| 0 <= i < s.len() implies #[trigger] worlds_bounded(s[i]) by {
            if i < s.len() - 1 {
                assert(s.drop_last()[i] == s[i]);
            } else {
                assert(s[i] == s.last());
            }
        }
    }
}

/// A propagation pass from a bounded incoming transform leaves every
/// world transform bounded.
pub proof fn lemma_propagate_worlds_bounded(n: SceneNodeView, incoming: Mat4)
    ensures
        worlds_bounded(spec_propagate(n, incoming)),
    decreases n,
{
    let world = spec_mat_mul(incoming, spec_local_transform(n));
    crate::matrix::lemma_mul_bounded(incoming, spec_local_transform(n));
    lemma_propagate_seq_worlds_bounded(n.children, world);
}

/// Sequence form of `lemma_propagate_worlds_bounded`.
pub proof fn lemma_propagate_seq_worlds_bounded(s: Seq<SceneNodeView>, world: Mat4)
    ensures
        worlds_bounded_seq(spec_propagate_seq(s, world)),
    decreases s,
{
    if s.len() > 0 {
        lemma_propagate_seq_worlds_bounded(s.drop_last(), world);
        lemma_propagate_worlds_bounded(s.last(), world);
        let r = spec_propagate_seq(s, world);
        assert(r.drop_last() =~= spec_propagate_seq(s.drop_last(), world));
        assert(r.last() == spec_propagate(s.last(), world));
    }
}

impl SceneNode {
    /// A group node: identity pose, no drawable, no children.
    pub fn new() -> (r: SceneNode)
        ensures
            r@ == (SceneNodeView {
                position: Vec3 { x: 0, y: 0, z: 0 },
                rotation: Vec3 { x: 0, y: 0, z: 0 },
                reference_point: Vec3 { x: 0, y: 0, z: 0 },
                drawable: None,
                world_transform: spec_identity(),
                children: Seq::empty(),
            }),
    {
        let r = SceneNode {
            position: Vec3 { x: 0, y: 0, z: 0 },
            rotation: Vec3 { x: 0, y: 0, z: 0 },
            reference_point: Vec3 { x: 0, y: 0, z: 0 },
            drawable: None,
            children: Vec::new(),
            current_transformation_matrix: Mat4::identity(),
        };
        proof {
            assert(r@.children =~= Seq::<SceneNodeView>::empty());
            assert(r@ =~~= (SceneNodeView {
                position: Vec3 { x: 0, y: 0, z: 0 },
                rotation: Vec3 { x: 0, y: 0, z: 0 },
                reference_point: Vec3 { x: 0, y: 0, z: 0 },
                drawable: None,
                world_transform: spec_identity(),
                children: Seq::empty(),
            }));
        }
        r
    }

    /// A node with identity pose bound to a drawable.
    pub fn from_vao(vao_id: u32, index_count: u32) -> (r: SceneNode)
        ensures
            r@ == (SceneNodeView {
                position: Vec3 { x: 0, y: 0, z: 0 },
                rotation: Vec3 { x: 0, y: 0, z: 0 },
                reference_point: Vec3 { x: 0, y: 0, z: 0 },
                drawable: Some(Drawable { vao_id, index_count }),
                world_transform: spec_identity(),
                children: Seq::empty(),
            }),
    {
        let mut r = SceneNode::new();
        r.drawable = Some(Drawable { vao_id, index_count });
        proof {
            assert(r@ =~~= (SceneNodeView {
                position: Vec3 { x: 0, y: 0, z: 0 },
                rotation: Vec3 { x: 0, y: 0, z: 0 },
                reference_point: Vec3 { x: 0, y: 0, z: 0 },
                drawable: Some(Drawable { vao_id, index_count }),
                world_transform: spec_identity(),
                children: Seq::empty(),
            }));
        }
        r
    }

    /// Append `child` to this node's child sequence, transferring
    /// ownership. Attaching a node that is owned elsewhere cannot be
    /// written: the child is moved in, so the tree stays a strict tree.
    pub fn add_child(&mut self, child: SceneNode)
        ensures
            final(self)@ == (SceneNodeView { children: old(self)@.children.push(child@), ..old(self)@ }),
    {
        let ghost before = self.children@;
        self.children.push(child);
        proof {
            assert(self.children@.drop_last() =~= before);
            assert(final(self)@ =~~= (SceneNodeView {
                children: old(self)@.children.push(child@),
                ..old(self)@
            }));
        }
    }

    /// This node's local transform, composed from its pose fields.
    pub fn local_transform(&self) -> (r: Mat4)
        ensures
            r == spec_local_transform(self@),
            mat_bounded(r),
    {
        let t = translation(&self.position);
        let o = translation(&self.reference_point);
        let rx = rotation_x(self.rotation.x);
        let ry = rotation_y(self.rotation.y);
        let rz = rotation_z(self.rotation.z);
        let neg_ref = Vec3 {
            x: neg_coord(self.reference_point.x),
            y: neg_coord(self.reference_point.y),
            z: neg_coord(self.reference_point.z),
        };
        let io = translation(&neg_ref);
        let a = mat_mul(&t, &o);
        let b = mat_mul(&a, &rx);
        let c = mat_mul(&b, &ry);
        let d = mat_mul(&c, &rz);
        let r = mat_mul(&d, &io);
        proof {
            reveal(spec_local_transform);
        }
        r
    }
}

/// Negate one coordinate, saturating at the integer edge.
fn neg_coord(x: i64) -> (r: i64)
    ensures
        r == neg_coord_spec(x),
{
    if x == i64::MIN {
        i64::MAX
    } else {
        -x
    }
}

/// Propagate a subtree by value: store the composed world transform and
/// recurse into the children in order.
fn propagate_node(node: SceneNode, incoming: &Mat4) -> (r: SceneNode)
    requires
        mat_bounded(*incoming),
    ensures
        r@ == spec_propagate(node@, *incoming),
    decreases node,
{
    let local = node.local_transform();
    let world = mat_mul(incoming, &local);
    let SceneNode { position, rotation, reference_point, drawable, children, current_transformation_matrix: _ } = node;
    let mut children = children;
    let ghost orig = children@;
    proof {
        lemma_node_view_seq(orig);
    }
    let n = children.len();
    let mut i: usize = 0;
    while i < n
        invariant
            n == children.len(),
            orig.len() == n,
            mat_bounded(world),
            mat_bounded(*incoming),
            world == spec_mat_mul(*incoming, spec_local_transform(node@)),
            orig == node.children@,
            i <= n,
            forall|j: int| i <= j < n ==> #[trigger] children@[j] == orig[j],
            forall|j: int|
                0 <= j < i ==> #[trigger] children@[j]@ == spec_propagate(orig[j]@, world),
        decreases n - i,
    {
        let child = children.remove(i);
        proof {
            assert(child == orig[i as int]);
            assert(decreases_to!(node => child));
        }
        let child = propagate_node(child, &world);
        children.insert(i, child);
        i += 1;
    }
    let r = SceneNode {
        position,
        rotation,
        reference_point,
        drawable,
        children,
        current_transformation_matrix: world,
    };
    proof {
        lemma_node_view_seq(children@);
        lemma_propagate_seq(node@.children, world);
        assert forall|j: int| 0 <= j < n implies node_view_seq(children@)[j] == spec_propagate_seq(
            node@.children,
            world,
        )[j] by {
            assert(node@.children[j] == node_view(orig[j]));
            assert(children@[j]@ == spec_propagate(orig[j]@, world));
            assert(spec_propagate_seq(node@.children, world)[j] == spec_propagate(
                node@.children[j],
                world,
            ));
            assert(node_view_seq(children@)[j] == node_view(children@[j]));
        }
        assert(node_view_seq(children@) =~= spec_propagate_seq(node@.children, world));
        assert(r@ =~~= spec_propagate(node@, *incoming));
    }
    r
}

/// Recompute every cached world transform in the tree: the node stores
/// `transformation_so_far` composed with its local transform, and each
/// child, in order, receives the node's new world transform. This must
/// run over the full tree before draw commands are read off it.
pub fn update_node_transformations(root: &mut SceneNode, transformation_so_far: &Mat4)
    requires
        mat_bounded(*transformation_so_far),
    ensures
        final(root)@ == spec_propagate(old(root)@, *transformation_so_far),
        worlds_bounded(final(root)@),
{
    let mut tmp = SceneNode::new();
    core::mem::swap(root, &mut tmp);
    let mut done = propagate_node(tmp, transformation_so_far);
    core::mem::swap(root, &mut done);
    proof {
        lemma_propagate_worlds_bounded(old(root)@, *transformation_so_far);
    }
}

/// The draw commands a tree emits: one per drawable node, parents before
/// children, siblings in order. The clip-space matrix is the
/// view-projection composed with the node's world transform; the world
/// transform rides along for world-space shading.
pub open spec fn spec_draw(n: SceneNodeView, vp: Mat4) -> Seq<DrawCommand>
    decreases n,
{
    let own: Seq<DrawCommand> = match n.drawable {
        Some(d) => seq![
            DrawCommand {
                vao_id: d.vao_id,
                index_count: d.index_count,
                mvp: spec_mat_mul(vp, n.world_transform),
                model: n.world_transform,
            },
        ],
        None => Seq::empty(),
    };
    own + spec_draw_seq(n.children, vp)
}

/// Draw commands over a sequence of sibling nodes, in order.
pub open spec fn spec_draw_seq(s: Seq<SceneNodeView>, vp: Mat4) -> Seq<DrawCommand>
    decreases s,
{
    if s.len() == 0 {
        Seq::empty()
    } else {
        spec_draw_seq(s.drop_last(), vp) + spec_draw(s.last(), vp)
    }
}

/// How many nodes of the tree hold a drawable binding.
pub open spec fn spec_drawable_count(n: SceneNodeView) -> nat
    decreases n,
{
    (if n.drawable is Some {
        1nat
    } else {
        0nat
    }) + spec_drawable_count_seq(n.children)
}

/// Drawable nodes over a sequence of sibling subtrees.
pub open spec fn spec_drawable_count_seq(s: Seq<SceneNodeView>) -> nat
    decreases s,
{
    if s.len() == 0 {
        0nat
    } else {
        spec_drawable_count_seq(s.drop_last()) + spec_drawable_count(s.last())
    }
}

/// Emit this subtree's draw commands after whatever is already in `out`.
fn emit_draw_commands(node: &SceneNode, vp: &Mat4, out: &mut Vec<DrawCommand>)
    requires
        mat_bounded(*vp),
        worlds_bounded(node@),
    ensures
        final(out)@ == old(out)@ + spec_draw(node@, *vp),
    decreases *node,
{
    let ghost base = out@;
    let ghost own = match node@.drawable {
        Some(d) => seq![
            DrawCommand {
                vao_id: d.vao_id,
                index_count: d.index_count,
                mvp: spec_mat_mul(*vp, node@.world_transform),
                model: node@.world_transform,
            },
        ],
        None => Seq::<DrawCommand>::empty(),
    };
    if let Some(d) = node.drawable {
        let mvp = mat_mul(vp, &node.current_transformation_matrix);
        out.push(DrawCommand {
            vao_id: d.vao_id,
            index_count: d.index_count,
            mvp,
            model: node.current_transformation_matrix,
        });
    }
    proof {
        assert(out@ =~= base + own);
        lemma_node_view_seq(node.children@);
        lemma_worlds_bounded_seq(node@.children);
        assert(node@.children.take(0) =~= Seq::<SceneNodeView>::empty());
    }
    let n = node.children.len();
    let mut i: usize = 0;
    while i < n
        invariant
            n == node.children.len(),
            node@.children.len() == n,
            mat_bounded(*vp),
            worlds_bounded(node@),
            i <= n,
            forall|j: int| 0 <= j < n ==> #[trigger] node@.children[j] == node_view(
                node.children@[j],
            ),
            forall|j: int| 0 <= j < n ==> #[trigger] worlds_bounded(node@.children[j]),
            out@ == base + own + spec_draw_seq(node@.children.take(i as int), *vp),
        decreases n - i,
    {
        proof {
            assert(decreases_to!(*node => node.children@[i as int]));
            assert(node.children@[i as int]@ == node@.children[i as int]);
            assert(worlds_bounded(node@.children[i as int]));
        }
        emit_draw_commands(&node.children[i], vp, out);
        proof {
            let pre = node@.children.take(i as int);
            let post = node@.children.take(i as int + 1);
            assert(post.drop_last() =~= pre);
            assert(post.last() == node@.children[i as int]);
            assert(out@ =~= base + own + spec_draw_seq(post, *vp));
        }
        i += 1;
    }
    proof {
        assert(node@.children.take(n as int) =~= node@.children);
    }
}

/// Collect the tree's draw commands in traversal order. The world
/// transforms must come from a completed propagation pass.
pub fn draw_scene(root: &SceneNode, view_projection_matrix: &Mat4) -> (cmds: Vec<DrawCommand>)
    requires
        mat_bounded(*view_projection_matrix),
        worlds_bounded(root@),
    ensures
        cmds@ == spec_draw(root@, *view_projection_matrix),
{
    let mut out: Vec<DrawCommand> = Vec::new();
    emit_draw_commands(root, view_projection_matrix, &mut out);
    proof {
        assert(out@ =~= spec_draw(root@, *view_projection_matrix));
    }
    out
}

/// Propagate, then draw, in one call: the draw pass can never observe a
/// stale world transform.
pub fn render_tree(root: &mut SceneNode, base: &Mat4, view_projection_matrix: &Mat4) -> (cmds: Vec<
    DrawCommand,
>)
    requires
        mat_bounded(*base),
        mat_bounded(*view_projection_matrix),
    ensures
        final(root)@ == spec_propagate(old(root)@, *base),
        cmds@ == spec_draw(spec_propagate(old(root)@, *base), *view_projection_matrix),
{
    update_node_transformations(root, base);
    draw_scene(root, view_projection_matrix)
}

/// After a propagation pass, every child's world transform is its
/// parent's world transform composed with the child's own local
/// transform; and each child subtree is itself exactly a propagation
/// from the parent's world transform, so the same law holds at every
/// depth of the tree.
pub proof fn lemma_parent_child_world(n: SceneNodeView, incoming: Mat4, i: int)
    requires
        0 <= i < n.children.len(),
    ensures
        ({
            let t = spec_propagate(n, incoming);
            &&& t.children.len() == n.children.len()
            &&& t.children[i] == spec_propagate(n.children[i], t.world_transform)
            &&& t.children[i].world_transform == spec_mat_mul(
                t.world_transform,
                spec_local_transform(t.children[i]),
            )
        }),
{
    let world = spec_mat_mul(incoming, spec_local_transform(n));
    lemma_propagate_seq(n.children, world);
    let t = spec_propagate(n, incoming);
    lemma_local_same_pose(t.children[i], n.children[i]);
}

/// Propagating a tree twice with unchanged node fields changes nothing
/// the second time: propagation is idempotent.
pub proof fn lemma_propagate_idempotent(n: SceneNodeView, incoming: Mat4)
    ensures
        spec_propagate(spec_propagate(n, incoming), incoming) == spec_propagate(n, incoming),
    decreases n,
{
    let t = spec_propagate(n, incoming);
    lemma_local_same_pose(t, n);
    let world = spec_mat_mul(incoming, spec_local_transform(n));
    lemma_propagate_seq_idempotent(n.children, world);
    assert(spec_propagate(t, incoming) =~~= t);
}

/// Sequence form of `lemma_propagate_idempotent`.
pub proof fn lemma_propagate_seq_idempotent(s: Seq<SceneNodeView>, world: Mat4)
    ensures
        spec_propagate_seq(spec_propagate_seq(s, world), world) == spec_propagate_seq(s, world),
    decreases s,
{
    if s.len() > 0 {
        let ps = spec_propagate_seq(s, world);
        assert(ps.drop_last() =~= spec_propagate_seq(s.drop_last(), world));
        assert(ps.last() == spec_propagate(s.last(), world));
        lemma_propagate_seq_idempotent(s.drop_last(), world);
        lemma_propagate_idempotent(s.last(), world);
        assert(spec_propagate_seq(ps, world) =~= ps);
    }
}

/// A node with zero rotation and zero pivot contributes a pure
/// translation: its local transform is exactly `T(position)`.
pub proof fn lemma_translation_only_local(n: SceneNodeView)
    requires
        n.rotation == (Vec3 { x: 0, y: 0, z: 0 }),
        n.reference_point == (Vec3 { x: 0, y: 0, z: 0 }),
    ensures
        spec_local_transform(n) == spec_translation(n.position),
{
    reveal(spec_local_transform);
    lemma_trig_exact();
    assert(spec_rotation_x(0) == spec_identity());
    assert(spec_rotation_y(0) == spec_identity());
    assert(spec_rotation_z(0) == spec_identity());
    assert(spec_translation(Vec3 { x: 0, y: 0, z: 0 }) == spec_identity());
    assert(spec_neg_vec3(Vec3 { x: 0, y: 0, z: 0 }) == (Vec3 { x: 0, y: 0, z: 0 }));
    lemma_identity_mul(spec_translation(n.position));
}

/// So after propagation, such a child sits at its parent's world
/// transform composed with a plain translation.
pub proof fn lemma_translation_only_child_world(n: SceneNodeView, incoming: Mat4, i: int)
    requires
        0 <= i < n.children.len(),
        n.children[i].rotation == (Vec3 { x: 0, y: 0, z: 0 }),
        n.children[i].reference_point == (Vec3 { x: 0, y: 0, z: 0 }),
    ensures
        ({
            let t = spec_propagate(n, incoming);
            t.children[i].world_transform == spec_mat_mul(
                t.world_transform,
                spec_translation(n.children[i].position),
            )
        }),
{
    lemma_parent_child_world(n, incoming, i);
    let t = spec_propagate(n, incoming);
    lemma_local_same_pose(t.children[i], n.children[i]);
    lemma_translation_only_local(n.children[i]);
}

/// A node with identity pose — the synthetic root — takes the incoming
/// base transform as its world transform, exactly: propagation from the
/// identity leaves the root at the identity.
pub proof fn lemma_identity_pose_world(n: SceneNodeView, incoming: Mat4)
    requires
        n.position == (Vec3 { x: 0, y: 0, z: 0 }),
        n.rotation == (Vec3 { x: 0, y: 0, z: 0 }),
        n.reference_point == (Vec3 { x: 0, y: 0, z: 0 }),
        mat_bounded(incoming),
    ensures
        spec_propagate(n, incoming).world_transform == incoming,
{
    lemma_translation_only_local(n);
    assert(spec_translation(Vec3 { x: 0, y: 0, z: 0 }) == spec_identity());
    lemma_identity_mul(incoming);
}

/// A full turn more on any axis (or on several) leaves a node's local
/// transform exactly unchanged.
pub proof fn lemma_full_turn_local(n: SceneNodeView, m: SceneNodeView)
    requires
        m.position == n.position,
        m.reference_point == n.reference_point,
        m.rotation.x as int == n.rotation.x as int || m.rotation.x as int == n.rotation.x as int
            + TURN as int,
        m.rotation.y as int == n.rotation.y as int || m.rotation.y as int == n.rotation.y as int
            + TURN as int,
        m.rotation.z as int == n.rotation.z as int || m.rotation.z as int == n.rotation.z as int
            + TURN as int,
    ensures
        spec_local_transform(m) == spec_local_transform(n),
{
    reveal(spec_local_transform);
    lemma_rotation_period(n.rotation.x as int);
    lemma_rotation_period(n.rotation.y as int);
    lemma_rotation_period(n.rotation.z as int);
}

/// Draw emission issues exactly one command per drawable node and none
/// for group-only nodes: the command sequence is as long as the number
/// of drawable bindings in the tree.
pub proof fn lemma_draw_count(n: SceneNodeView, vp: Mat4)
    ensures
        spec_draw(n, vp).len() == spec_drawable_count(n),
    decreases n,
{
    lemma_draw_count_seq(n.children, vp);
}

/// Sequence form of `lemma_draw_count`.
pub proof fn lemma_draw_count_seq(s: Seq<SceneNodeView>, vp: Mat4)
    ensures
        spec_draw_seq(s, vp).len() == spec_drawable_count_seq(s),
    decreases s,
{
    if s.len() > 0 {
        lemma_draw_count_seq(s.drop_last(), vp);
        lemma_draw_count(s.last(), vp);
    }
}

/// The starting scene: a bare root with the terrain mesh as its only
/// child.
pub fn build_scene(terrain_vao: u32, terrain_index_count: u32) -> (r: SceneNode)
    ensures
        r@.drawable is None,
        r@.position == (Vec3 { x: 0, y: 0, z: 0 }),
        r@.rotation == (Vec3 { x: 0, y: 0, z: 0 }),
        r@.reference_point == (Vec3 { x: 0, y: 0, z: 0 }),
        r@.children.len() == 1,
        r@.children[0] == (SceneNodeView {
            position: Vec3 { x: 0, y: 0, z: 0 },
            rotation: Vec3 { x: 0, y: 0, z: 0 },
            reference_point: Vec3 { x: 0, y: 0, z: 0 },
            drawable: Some(Drawable { vao_id: terrain_vao, index_count: terrain_index_count }),
            world_transform: spec_identity(),
            children: Seq::empty(),
        }),
{
    let mut root = SceneNode::new();
    let terrain = SceneNode::from_vao(terrain_vao, terrain_index_count);
    root.add_child(terrain);
    root
}

} // verus!
