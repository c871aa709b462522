//! The scene graph: an arena of nodes with parent back-references, local
//! transforms, attachments and world-transform propagation.
use vstd::prelude::*;

verus! {

/// Failure of a scene-graph operation.
#[derive(Clone, Copy, Debug, PartialEq, Eq, Structural)]
pub enum SceneError {
    /// The node id does not name a node of the graph.
    NotFound,
}

/// The closed set of mesh kinds a node can draw.
#[derive(Clone, Copy, Debug, PartialEq, Eq, Structural)]
pub enum MeshKind {
    Pbr,
    Unlit,
}

/// A mesh attachment: which bound meshes a node draws, and how.
#[derive(Clone, Debug)]
pub struct MeshAttachment {
    pub kind: MeshKind,
    pub mesh_indices: Vec<usize>,
}

/// An arena of nodes addressed by stable index, stored column by column:
/// each node has a back-reference to its parent, a local transform and
/// optional attachments. A parent always precedes its children, so the nodes
/// form a forest and index order walks every tree from its root to its leaves.
#[derive(Clone, Debug)]
pub struct SceneGraph<T> {
    parent_ids: Vec<Option<usize>>,
    local_transforms: Vec<T>,
    mesh_attachments: Vec<Option<MeshAttachment>>,
    light_attachments: Vec<Option<usize>>,
}

/// A node's parent must be an earlier node.
pub open spec fn parent_precedes(parents: Seq<Option<usize>>) -> bool {
    forall|i: int|
        0 <= i < parents.len() ==> match #[trigger] parents[i] {
            Some(p) => p < i,
            None => true,
        }
}

/// `world[i]` is node `i`'s world transform: its local transform at a root,
/// else a result of composing its parent's world transform with it.
pub open spec fn is_world_transform<T, F: Fn(T, T) -> T>(
    parents: Seq<Option<usize>>,
    locals: Seq<T>,
    world: Seq<T>,
    compose: F,
    i: int,
) -> bool {
    match parents[i] {
        None => world[i] == locals[i],
        Some(p) => p < i && compose.ensures((world[p as int], locals[i]), world[i]),
    }
}

impl<T: Copy> SceneGraph<T> {
    /// Parent of each node, by id.
    pub closed spec fn parents(&self) -> Seq<Option<usize>> {
        self.parent_ids@
    }

    /// Local transform of each node, by id.
    pub closed spec fn locals(&self) -> Seq<T> {
        self.local_transforms@
    }

    /// Mesh attachment of each node, by id.
    pub closed spec fn meshes(&self) -> Seq<Option<MeshAttachment>> {
        self.mesh_attachments@
    }

    /// Light attachment (a light id) of each node, by id.
    pub closed spec fn lights(&self) -> Seq<Option<usize>> {
        self.light_attachments@
    }

    pub open spec fn wf(&self) -> bool {
        &&& parent_precedes(self.parents())
        &&& self.locals().len() == self.parents().len()
        &&& self.meshes().len() == self.parents().len()
        &&& self.lights().len() == self.parents().len()
    }

    pub open spec fn node_count(&self) -> nat {
        self.parents().len()
    }

    pub open spec fn has_node(&self, id: usize) -> bool {
        id < self.node_count()
    }

    pub fn new() -> (r: Self)
        ensures
            r.wf(),
            r.node_count() == 0,
    {
        SceneGraph {
            parent_ids: Vec::new(),
            local_transforms: Vec::new(),
            mesh_attachments: Vec::new(),
            light_attachments: Vec::new(),
        }
    }

    pub fn len(&self) -> (r: usize)
        requires
            self.wf(),
        ensures
            r == self.node_count(),
    {
        self.parent_ids.len()
    }

    /// Adds a node under `parent` (a root where `None`) and returns its id.
    pub fn insert_node(&mut self, parent: Option<usize>, local: T) -> (r: Result<usize, SceneError>)
        requires
            old(self).wf(),
            old(self).node_count() < usize::MAX,
        ensures
            final(self).wf(),
            match parent {
                Some(p) => p >= old(self).node_count(),
                None => false,
            } <==> r is Err,
            r is Err ==> r->Err_0 == SceneError::NotFound,
            r is Err ==> *final(self) == *old(self),
            r is Ok ==> {
                &&& r->Ok_0 == old(self).node_count()
                &&& final(self).parents() == old(self).parents().push(parent)
                &&& final(self).locals() == old(self).locals().push(local)
                &&& final(self).meshes() == old(self).meshes().push(None)
                &&& final(self).lights() == old(self).lights().push(None)
            },
    {
        let id = self.parent_ids.len();
        if let Some(p) = parent {
            if p >= id {
                return Err(SceneError::NotFound);
            }
        }
        self.parent_ids.push(parent);
        self.local_transforms.push(local);
        self.mesh_attachments.push(None);
        self.light_attachments.push(None);
        Ok(id)
    }

    /// The parent of node `id`.
    pub fn parent(&self, id: usize) -> (r: Result<Option<usize>, SceneError>)
        requires
            self.wf(),
        ensures
            r is Err <==> !self.has_node(id),
            r is Err ==> r->Err_0 == SceneError::NotFound,
            r is Ok ==> r->Ok_0 == self.parents()[id as int],
    {
        if id < self.parent_ids.len() {
            Ok(self.parent_ids[id])
        } else {
            Err(SceneError::NotFound)
        }
    }

    /// The local transform of node `id`.
    pub fn local_transform(&self, id: usize) -> (r: Result<T, SceneError>)
        requires
            self.wf(),
        ensures
            r is Err <==> !self.has_node(id),
            r is Err ==> r->Err_0 == SceneError::NotFound,
            r is Ok ==> r->Ok_0 == self.locals()[id as int],
    {
        if id < self.parent_ids.len() {
            Ok(self.local_transforms[id])
        } else {
            Err(SceneError::NotFound)
        }
    }

    /// Replaces the local transform of node `id`.
    pub fn set_local_transform(&mut self, id: usize, local: T) -> (r: Result<(), SceneError>)
        requires
            old(self).wf(),
        ensures
            final(self).wf(),
            r is Err <==> !old(self).has_node(id),
            r is Err ==> r->Err_0 == SceneError::NotFound,
            final(self).parents() == old(self).parents(),
            final(self).meshes() == old(self).meshes(),
            final(self).lights() == old(self).lights(),
            r is Ok ==> final(self).locals() == old(self).locals().update(id as int, local),
            r is Err ==> final(self).locals() == old(self).locals(),
    {
        if id >= self.parent_ids.len() {
            return Err(SceneError::NotFound);
        }
        self.local_transforms.set(id, local);
        Ok(())
    }

    /// Attaches `mesh` to node `id`, returning the attachment it replaces.
    pub fn attach_mesh(&mut self, id: usize, mesh: MeshAttachment) -> (r: Result<
        Option<MeshAttachment>,
        SceneError,
    >)
        requires
            old(self).wf(),
        ensures
            final(self).wf(),
            r is Err <==> !old(self).has_node(id),
            r is Err ==> r->Err_0 == SceneError::NotFound,
            final(self).parents() == old(self).parents(),
            final(self).locals() == old(self).locals(),
            final(self).lights() == old(self).lights(),
            r is Ok ==> r->Ok_0 == old(self).meshes()[id as int] && final(self).meshes()
                == old(self).meshes().update(id as int, Some(mesh)),
            r is Err ==> final(self).meshes() == old(self).meshes(),
    {
        if id >= self.parent_ids.len() {
            return Err(SceneError::NotFound);
        }
        let mut previous = Some(mesh);
        self.mesh_attachments.set_and_swap(id, &mut previous);
        Ok(previous)
    }

    /// Detaches the mesh of node `id`, returning it.
    pub fn detach_mesh(&mut self, id: usize) -> (r: Result<Option<MeshAttachment>, SceneError>)
        requires
            old(self).wf(),
        ensures
            final(self).wf(),
            r is Err <==> !old(self).has_node(id),
            r is Err ==> r->Err_0 == SceneError::NotFound,
            final(self).parents() == old(self).parents(),
            final(self).locals() == old(self).locals(),
            final(self).lights() == old(self).lights(),
            r is Ok ==> r->Ok_0 == old(self).meshes()[id as int] && final(self).meshes()
                == old(self).meshes().update(id as int, None),
            r is Err ==> final(self).meshes() == old(self).meshes(),
    {
        if id >= self.parent_ids.len() {
            return Err(SceneError::NotFound);
        }
        let mut previous = None;
        self.mesh_attachments.set_and_swap(id, &mut previous);
        Ok(previous)
    }

    /// The mesh attached to node `id`.
    pub fn mesh(&self, id: usize) -> (r: Result<&Option<MeshAttachment>, SceneError>)
        requires
            self.wf(),
        ensures
            r is Err <==> !self.has_node(id),
            r is Err ==> r->Err_0 == SceneError::NotFound,
            r is Ok ==> *r->Ok_0 == self.meshes()[id as int],
    {
        if id < self.parent_ids.len() {
            Ok(&self.mesh_attachments[id])
        } else {
            Err(SceneError::NotFound)
        }
    }

    /// Attaches the light `light_id` to node `id` (a reference, not ownership),
    /// or detaches its light where `light_id` is `None`. Returns the previous one.
    pub fn set_light(&mut self, id: usize, light_id: Option<usize>) -> (r: Result<
        Option<usize>,
        SceneError,
    >)
        requires
            old(self).wf(),
        ensures
            final(self).wf(),
            r is Err <==> !old(self).has_node(id),
            r is Err ==> r->Err_0 == SceneError::NotFound,
            final(self).parents() == old(self).parents(),
            final(self).locals() == old(self).locals(),
            final(self).meshes() == old(self).meshes(),
            r is Ok ==> r->Ok_0 == old(self).lights()[id as int] && final(self).lights()
                == old(self).lights().update(id as int, light_id),
            r is Err ==> final(self).lights() == old(self).lights(),
    {
        if id >= self.parent_ids.len() {
            return Err(SceneError::NotFound);
        }
        let previous = self.light_attachments[id];
        self.light_attachments.set(id, light_id);
        Ok(previous)
    }

    /// The light attached to node `id`.
    pub fn light(&self, id: usize) -> (r: Result<Option<usize>, SceneError>)
        requires
            self.wf(),
        ensures
            r is Err <==> !self.has_node(id),
            r is Err ==> r->Err_0 == SceneError::NotFound,
            r is Ok ==> r->Ok_0 == self.lights()[id as int],
    {
        if id < self.parent_ids.len() {
            Ok(self.light_attachments[id])
        } else {
            Err(SceneError::NotFound)
        }
    }

    /// Computes every node's world transform, from the roots down: a root's
    /// world transform is its local transform, and any other node's is
    /// `compose(world of its parent, its local transform)`.
    pub fn propagate_world_transforms<F: Fn(T, T) -> T>(&self, compose: F) -> (r: Vec<T>)
        requires
            self.wf(),
            forall|a: T, b: T| compose.requires((a, b)),
        ensures
            r@.len() == self.node_count(),
            forall|i: int|
                0 <= i < r@.len() ==> is_world_transform(
                    self.parents(),
                    self.locals(),
                    r@,
                    compose,
                    i,
                ),
    {
        let n = self.parent_ids.len();
        let mut world: Vec<T> = Vec::new();
        let mut i: usize = 0;
        while i < n
            invariant
                self.wf(),
                n == self.node_count(),
                i <= n,
                world@.len() == i,
                forall|a: T, b: T| compose.requires((a, b)),
                forall|j: int|
                    0 <= j < i ==> is_world_transform(
                        self.parents(),
                        self.locals(),
                        world@,
                        compose,
                        j,
                    ),
            decreases n - i,
        {
            let local = self.local_transforms[i];
            let w = match self.parent_ids[i] {
                None => local,
                Some(p) => {
                    proof {
                        assert(self.parents()[i as int] == Some(p));
                    }
                    compose(world[p], local)
                },
            };
            let ghost prev = world@;
            world.push(w);
            proof {
                assert forall|j: int| 0 <= j < i + 1 implies is_world_transform(
                    self.parents(),
                    self.locals(),
                    world@,
                    compose,
                    j,
                ) by {
                    if j < i {
                        assert(is_world_transform(self.parents(), self.locals(), prev, compose, j));
                        assert(world@[j] == prev[j]);
                        if let Some(p) = self.parents()[j] {
                            assert(world@[p as int] == prev[p as int]);
                        }
                    } else {
                        if let Some(p) = self.parents()[j] {
                            assert(world@[p as int] == prev[p as int]);
                        }
                    }
                }
            }
            i += 1;
        }
        world
    }
}

/// `a` is a proper ancestor of node `i`: reached from `i` by following
/// parent links one or more times.
pub open spec fn is_ancestor(parents: Seq<Option<usize>>, a: int, i: int) -> bool
    decreases i,
{
    if 0 <= i < parents.len() {
        match parents[i] {
            Some(p) => p < i && (p == a || is_ancestor(parents, a, p as int)),
            None => false,
        }
    } else {
        false
    }
}

/// The nodes form a forest: every ancestor of a node comes before it, so no
/// node is its own ancestor.
pub proof fn lemma_no_node_is_its_own_ancestor(parents: Seq<Option<usize>>, a: int, i: int)
    requires
        parent_precedes(parents),
        is_ancestor(parents, a, i),
    ensures
        a < i,
        a != i,
    decreases i,
{
    if let Some(p) = parents[i] {
        if p != a {
            lemma_no_node_is_its_own_ancestor(parents, a, p as int);
        }
    }
}

/// Along a chain root, parent, child, the propagated world transforms are:
/// the root's local transform at the root, and at each further node its
/// parent's world transform composed with its own local transform.
pub proof fn lemma_world_transform_of_chain<T, F: Fn(T, T) -> T>(
    parents: Seq<Option<usize>>,
    locals: Seq<T>,
    world: Seq<T>,
    compose: F,
    root: usize,
    parent: usize,
    child: usize,
)
    requires
        world.len() == parents.len(),
        forall|i: int|
            0 <= i < world.len() ==> is_world_transform(parents, locals, world, compose, i),
        child < parents.len(),
        parents[root as int] == Option::<usize>::None,
        parents[parent as int] == Some(root),
        parents[child as int] == Some(parent),
    ensures
        world[root as int] == locals[root as int],
        compose.ensures((world[root as int], locals[parent as int]), world[parent as int]),
        compose.ensures((world[parent as int], locals[child as int]), world[child as int]),
        is_ancestor(parents, root as int, child as int),
{
    assert(is_world_transform(parents, locals, world, compose, child as int));
    assert(is_world_transform(parents, locals, world, compose, parent as int));
    assert(is_world_transform(parents, locals, world, compose, root as int));
    assert(is_ancestor(parents, root as int, parent as int));
}

/// Under a root whose local transform is the identity (for a composition
/// that leaves a transform unchanged when the identity comes first), the
/// root's world transform is the identity and a child's world transform is
/// its own local transform: a child offset by a translation sits at it.
pub proof fn lemma_child_of_identity_root<T, F: Fn(T, T) -> T>(
    parents: Seq<Option<usize>>,
    locals: Seq<T>,
    world: Seq<T>,
    compose: F,
    identity: T,
    root: usize,
    child: usize,
)
    requires
        world.len() == parents.len(),
        forall|i: int|
            0 <= i < world.len() ==> is_world_transform(parents, locals, world, compose, i),
        child < parents.len(),
        parents[root as int] == Option::<usize>::None,
        locals[root as int] == identity,
        parents[child as int] == Some(root),
        forall|x: T, y: T| #[trigger] compose.ensures((identity, x), y) ==> y == x,
    ensures
        world[root as int] == identity,
        world[child as int] == locals[child as int],
{
    assert(is_world_transform(parents, locals, world, compose, child as int));
    assert(is_world_transform(parents, locals, world, compose, root as int));
    assert(compose.ensures((identity, locals[child as int]), world[child as int]));
}

} // verus!
