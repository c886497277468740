use gloom_rs::matrix::{mat_mul, translation, Mat4, Vec3};
use gloom_rs::scene::{
    build_scene, draw_scene, update_node_transformations, SceneNode,
};

/// Scale of one world unit in fixed-point coordinates.
const S: i64 = 10_000;

fn vec3(x: i64, y: i64, z: i64) -> Vec3 {
    Vec3 { x, y, z }
}

/// The three-deep scenario: root, child at (1,0,0) with a drawable, and
/// a grandchild at (0,2,0) rotated a quarter turn about y around the
/// pivot (0,2,0), with a second drawable.
fn three_deep_tree() -> SceneNode {
    let mut root = SceneNode::new();
    let mut a = SceneNode::from_vao(1, 3);
    a.position = vec3(S, 0, 0);
    let mut b = SceneNode::from_vao(2, 6);
    b.position = vec3(0, 2 * S, 0);
    b.reference_point = vec3(0, 2 * S, 0);
    b.rotation = vec3(0, 90_000, 0);
    a.add_child(b);
    root.add_child(a);
    root
}

#[test]
fn three_deep_world_transforms() {
    let mut root = three_deep_tree();
    let identity = Mat4::identity();
    update_node_transformations(&mut root, &identity);

    // The child with no rotation and no pivot sits at a pure translation.
    let a = &root.children[0];
    assert_eq!(a.current_transformation_matrix, translation(&vec3(S, 0, 0)));

    // The grandchild against direct matrix construction:
    // T(1,0,0) * T(0,2,0) * T(0,2,0) * Ry(quarter) * T(0,-2,0),
    // composed left to right as the engine does.
    let b = &a.children[0];
    let local_b = a.children[0].local_transform();
    let expected = mat_mul(&a.current_transformation_matrix, &local_b);
    assert_eq!(b.current_transformation_matrix, expected);

    // And entry by entry: the quarter turn about y maps (x,y,z) to
    // (z,y,-x), and the accumulated translation is (1,2,0).
    let w = &b.current_transformation_matrix;
    assert_eq!(
        (w.m00, w.m01, w.m02, w.m03),
        (0, 0, S, S),
    );
    assert_eq!(
        (w.m10, w.m11, w.m12, w.m13),
        (0, S, 0, 2 * S),
    );
    assert_eq!(
        (w.m20, w.m21, w.m22, w.m23),
        (-S, 0, 0, 0),
    );
    assert_eq!(
        (w.m30, w.m31, w.m32, w.m33),
        (0, 0, 0, S),
    );
}

#[test]
fn world_transform_is_parent_times_local() {
    // The parent-child law checked numerically on every edge of the
    // three-deep tree, with nontrivial pose on every level.
    let mut root = three_deep_tree();
    root.children[0].children[0].children.push({
        let mut c = SceneNode::new();
        c.position = vec3(3 * S, -S, S / 2);
        c.rotation = vec3(45_000, 0, 210_000);
        c.reference_point = vec3(S, S, 0);
        c
    });
    let base = translation(&vec3(-S, S, 0));
    update_node_transformations(&mut root, &base);

    let mut stack = vec![&root];
    while let Some(parent) = stack.pop() {
        for child in &parent.children {
            let expected = mat_mul(&parent.current_transformation_matrix, &child.local_transform());
            assert_eq!(child.current_transformation_matrix, expected);
            stack.push(child);
        }
    }
}

#[test]
fn root_world_transform_is_the_base_transform() {
    let mut root = three_deep_tree();
    let base = translation(&vec3(-S, 2 * S, 0));
    update_node_transformations(&mut root, &base);
    assert_eq!(root.current_transformation_matrix, base);
}

#[test]
fn propagation_is_idempotent() {
    let mut once = three_deep_tree();
    let base = translation(&vec3(7 * S, 0, -3 * S));
    update_node_transformations(&mut once, &base);
    let mut twice = three_deep_tree();
    update_node_transformations(&mut twice, &base);
    update_node_transformations(&mut twice, &base);
    assert_eq!(once, twice);
}

#[test]
fn rotation_free_node_reduces_to_translation() {
    let mut root = SceneNode::new();
    let mut child = SceneNode::new();
    child.position = vec3(3 * S, -2 * S, 5 * S);
    root.add_child(child);
    let identity = Mat4::identity();
    update_node_transformations(&mut root, &identity);
    assert_eq!(
        root.children[0].current_transformation_matrix,
        translation(&vec3(3 * S, -2 * S, 5 * S)),
    );
}

#[test]
fn full_turn_returns_local_transform() {
    for axis in 0..3 {
        let mut plain = SceneNode::new();
        plain.position = vec3(S, 2 * S, 3 * S);
        plain.reference_point = vec3(0, S, 0);
        plain.rotation = vec3(10_000, 20_000, 30_000);
        let mut turned = SceneNode::new();
        turned.position = plain.position;
        turned.reference_point = plain.reference_point;
        turned.rotation = plain.rotation;
        match axis {
            0 => turned.rotation.x += 360_000,
            1 => turned.rotation.y += 360_000,
            _ => turned.rotation.z += 360_000,
        }
        assert_eq!(turned.local_transform(), plain.local_transform());
    }
}

#[test]
fn draw_emission_visits_each_drawable_once() {
    // Two drawable nodes among three group-only nodes.
    let mut root = SceneNode::new();
    let mut group_a = SceneNode::new();
    group_a.position = vec3(S, 0, 0);
    let mut mesh_one = SceneNode::from_vao(7, 12);
    mesh_one.position = vec3(0, S, 0);
    let mesh_two = SceneNode::from_vao(8, 30);
    let group_b = SceneNode::new();
    mesh_one.add_child(mesh_two);
    group_a.add_child(mesh_one);
    root.add_child(group_a);
    root.add_child(group_b);

    let identity = Mat4::identity();
    update_node_transformations(&mut root, &identity);
    let vp = translation(&vec3(0, 0, -2 * S));
    let cmds = draw_scene(&root, &vp);

    assert_eq!(cmds.len(), 2);
    assert_eq!(cmds[0].vao_id, 7);
    assert_eq!(cmds[0].index_count, 12);
    assert_eq!(cmds[1].vao_id, 8);
    assert_eq!(cmds[1].index_count, 30);

    // Each command carries the clip-space matrix and, separately, the
    // node's world transform.
    let w1 = &root.children[0].children[0].current_transformation_matrix;
    assert_eq!(cmds[0].model, *w1);
    assert_eq!(cmds[0].mvp, mat_mul(&vp, w1));
    let w2 = &root.children[0].children[0].children[0].current_transformation_matrix;
    assert_eq!(cmds[1].model, *w2);
    assert_eq!(cmds[1].mvp, mat_mul(&vp, w2));
}

#[test]
fn group_only_tree_emits_nothing() {
    let mut root = SceneNode::new();
    let mut a = SceneNode::new();
    a.add_child(SceneNode::new());
    root.add_child(a);
    let identity = Mat4::identity();
    update_node_transformations(&mut root, &identity);
    let cmds = draw_scene(&root, &identity);
    assert!(cmds.is_empty());
}

#[test]
fn build_scene_holds_one_terrain_child() {
    let root = build_scene(42, 9000);
    assert!(root.drawable.is_none());
    assert_eq!(root.children.len(), 1);
    let terrain = &root.children[0];
    assert_eq!(
        terrain.drawable,
        Some(gloom_rs::scene::Drawable { vao_id: 42, index_count: 9000 }),
    );
    assert!(terrain.children.is_empty());
}

#[test]
fn children_draw_in_insertion_order() {
    let mut root = SceneNode::new();
    for id in [3u32, 1, 2] {
        root.add_child(SceneNode::from_vao(id, 3));
    }
    let identity = Mat4::identity();
    update_node_transformations(&mut root, &identity);
    let cmds = draw_scene(&root, &identity);
    let ids: Vec<u32> = cmds.iter().map(|c| c.vao_id).collect();
    assert_eq!(ids, vec![3, 1, 2]);
}
