use cgmath::{Matrix4, SquareMatrix, Vector3, Vector4};
use scene_render::scene::{MeshAttachment, MeshKind, SceneError, SceneGraph};

fn translation(x: f32, y: f32, z: f32) -> Matrix4<f32> {
    Matrix4::from_translation(Vector3::new(x, y, z))
}

fn origin_of(m: &Matrix4<f32>) -> Vector4<f32> {
    m * Vector4::new(0.0, 0.0, 0.0, 1.0)
}

#[test]
fn child_of_identity_root_sits_at_its_offset() {
    let mut graph = SceneGraph::new();
    let root = graph.insert_node(None, Matrix4::identity()).unwrap();
    let child = graph.insert_node(Some(root), translation(0.0, 1.0, 0.0)).unwrap();
    let world = graph.propagate_world_transforms(|a, b| a * b);
    assert_eq!(origin_of(&world[child]), Vector4::new(0.0, 1.0, 0.0, 1.0));
}

#[test]
fn chain_of_three_composes_parent_then_local() {
    let mut graph = SceneGraph::new();
    let a = graph.insert_node(None, translation(1.0, 0.0, 0.0)).unwrap();
    let b = graph.insert_node(Some(a), translation(0.0, 2.0, 0.0)).unwrap();
    let c = graph.insert_node(Some(b), translation(0.0, 0.0, 3.0)).unwrap();
    let world = graph.propagate_world_transforms(|p, l| p * l);
    assert_eq!(world[b], world[a] * translation(0.0, 2.0, 0.0));
    assert_eq!(world[c], world[b] * translation(0.0, 0.0, 3.0));
    assert_eq!(origin_of(&world[c]), Vector4::new(1.0, 2.0, 3.0, 1.0));
}

#[test]
fn integer_offsets_add_along_the_chain() {
    let mut graph: SceneGraph<(i64, i64, i64)> = SceneGraph::new();
    let root = graph.insert_node(None, (5, 0, 0)).unwrap();
    let other_root = graph.insert_node(None, (0, 7, 0)).unwrap();
    let child = graph.insert_node(Some(root), (1, 1, 1)).unwrap();
    let grandchild = graph.insert_node(Some(child), (0, 0, 4)).unwrap();
    let world = graph.propagate_world_transforms(|p, l| (p.0 + l.0, p.1 + l.1, p.2 + l.2));
    assert_eq!(world, vec![(5, 0, 0), (0, 7, 0), (6, 1, 1), (6, 1, 5)]);
    assert_eq!(other_root, 1);
    assert_eq!(grandchild, 3);
}

#[test]
fn unknown_ids_are_not_found() {
    let mut graph: SceneGraph<i32> = SceneGraph::new();
    assert_eq!(graph.insert_node(Some(0), 1), Err(SceneError::NotFound));
    assert_eq!(graph.len(), 0);
    let root = graph.insert_node(None, 1).unwrap();
    assert_eq!(graph.insert_node(Some(root + 1), 2), Err(SceneError::NotFound));
    assert_eq!(graph.local_transform(3), Err(SceneError::NotFound));
    assert_eq!(graph.set_local_transform(3, 9), Err(SceneError::NotFound));
    assert_eq!(graph.parent(1), Err(SceneError::NotFound));
    assert!(graph.mesh(1).is_err());
    assert_eq!(graph.light(1), Err(SceneError::NotFound));
    assert_eq!(graph.set_light(1, Some(0)), Err(SceneError::NotFound));
}

#[test]
fn local_transforms_and_attachments_are_replaced() {
    let mut graph: SceneGraph<i32> = SceneGraph::new();
    let root = graph.insert_node(None, 1).unwrap();
    let child = graph.insert_node(Some(root), 2).unwrap();
    assert_eq!(graph.parent(child), Ok(Some(root)));
    assert_eq!(graph.parent(root), Ok(None));
    assert_eq!(graph.set_local_transform(child, 20), Ok(()));
    assert_eq!(graph.local_transform(child), Ok(20));
    assert_eq!(graph.local_transform(root), Ok(1));

    let previous = graph
        .attach_mesh(child, MeshAttachment { kind: MeshKind::Unlit, mesh_indices: vec![3] })
        .unwrap();
    assert!(previous.is_none());
    let attached = graph.mesh(child).unwrap().as_ref().unwrap();
    assert_eq!(attached.kind, MeshKind::Unlit);
    assert_eq!(attached.mesh_indices, vec![3]);
    let detached = graph.detach_mesh(child).unwrap().unwrap();
    assert_eq!(detached.mesh_indices, vec![3]);
    assert!(graph.mesh(child).unwrap().is_none());

    assert_eq!(graph.set_light(root, Some(4)), Ok(None));
    assert_eq!(graph.light(root), Ok(Some(4)));
    assert_eq!(graph.set_light(root, None), Ok(Some(4)));
    assert_eq!(graph.light(root), Ok(None));
}
