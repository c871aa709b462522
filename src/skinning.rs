//! Skins: validation against the scene, skinning matrices and the size of
//! the joint-matrix buffer.
use vstd::prelude::*;

verus! {

/// Why a skin cannot be used.
#[derive(Clone, Copy, Debug, PartialEq, Eq, Structural)]
pub enum SkinError {
    /// The joint list and the inverse-bind matrices differ in length.
    CountMismatch,
    /// A joint index names no node.
    JointOutOfRange,
    /// The joint matrices do not fit the device's per-draw buffer.
    TooManyJoints,
}

/// Bytes of one 4x4 matrix of 32-bit floats, as uploaded.
pub const MATRIX_BYTES: usize = 64;

/// A skeleton: joint node indices, in order, with one inverse-bind matrix
/// each, kept as imported.
#[derive(Clone, Debug)]
pub struct Skin<M> {
    pub bone_inverse_bind_matrices: Vec<M>,
    pub bone_node_indices: Vec<usize>,
}

/// The skinning matrices of a skin: joint `j`'s is the product of its
/// node's world transform and its inverse-bind matrix.
pub open spec fn are_skinning_matrices<M, F: Fn(M, M) -> M>(
    joints: Seq<usize>,
    inverse_binds: Seq<M>,
    world: Seq<M>,
    multiply: F,
    r: Seq<M>,
) -> bool {
    &&& r.len() == joints.len()
    &&& forall|j: int|
        0 <= j < r.len() ==> multiply.ensures(
            (world[joints[j] as int], inverse_binds[j]),
            #[trigger] r[j],
        )
}

impl<M: Copy> Skin<M> {
    /// Same number of joints and matrices, and every joint names one of
    /// `node_count` nodes.
    pub open spec fn wf(&self, node_count: nat) -> bool {
        &&& self.bone_inverse_bind_matrices@.len() == self.bone_node_indices@.len()
        &&& forall|j: int|
            0 <= j < self.bone_node_indices@.len() ==> #[trigger] self.bone_node_indices@[j]
                < node_count
    }

    /// Checks the skin against a scene of `node_count` nodes.
    pub fn validate(&self, node_count: usize) -> (r: Result<(), SkinError>)
        ensures
            r is Ok <==> self.wf(node_count as nat),
            r == Err::<(), SkinError>(SkinError::CountMismatch) <==> self.bone_inverse_bind_matrices@.len()
                != self.bone_node_indices@.len(),
            r == Err::<(), SkinError>(SkinError::JointOutOfRange) <==> (
            self.bone_inverse_bind_matrices@.len() == self.bone_node_indices@.len()
                && !self.wf(node_count as nat)),
            r != Err::<(), SkinError>(SkinError::TooManyJoints),
    {
        if self.bone_inverse_bind_matrices.len() != self.bone_node_indices.len() {
            return Err(SkinError::CountMismatch);
        }
        let mut j: usize = 0;
        while j < self.bone_node_indices.len()
            invariant
                self.bone_inverse_bind_matrices@.len() == self.bone_node_indices@.len(),
                j <= self.bone_node_indices@.len(),
                forall|k: int| 0 <= k < j ==> #[trigger] self.bone_node_indices@[k] < node_count,
            decreases self.bone_node_indices@.len() - j,
        {
            if self.bone_node_indices[j] >= node_count {
                return Err(SkinError::JointOutOfRange);
            }
            j += 1;
        }
        Ok(())
    }

    /// The skinning matrix of every joint, in joint order, from the nodes'
    /// world transforms (by node index).
    pub fn compute_skinning_matrices<F: Fn(M, M) -> M>(&self, world: &Vec<M>, multiply: F) -> (r:
        Vec<M>)
        requires
            self.wf(world@.len()),
            forall|a: M, b: M| multiply.requires((a, b)),
        ensures
            are_skinning_matrices(
                self.bone_node_indices@,
                self.bone_inverse_bind_matrices@,
                world@,
                multiply,
                r@,
            ),
    {
        let mut r: Vec<M> = Vec::new();
        let mut j: usize = 0;
        while j < self.bone_node_indices.len()
            invariant
                self.wf(world@.len()),
                forall|a: M, b: M| multiply.requires((a, b)),
                j <= self.bone_node_indices@.len(),
                r@.len() == j,
                forall|k: int|
                    0 <= k < j ==> multiply.ensures(
                        (
                            world@[self.bone_node_indices@[k] as int],
                            self.bone_inverse_bind_matrices@[k],
                        ),
                        #[trigger] r@[k],
                    ),
            decreases self.bone_node_indices@.len() - j,
        {
            let node = self.bone_node_indices[j];
            let m = multiply(world[node], self.bone_inverse_bind_matrices[j]);
            r.push(m);
            j += 1;
        }
        r
    }
}

/// Bytes of the per-draw joint-matrix buffer for a skin of `joint_count`
/// joints, fixed at load time; fails where it exceeds the device's
/// per-draw capacity.
pub fn joint_matrix_buffer_size(joint_count: usize, capacity_bytes: usize) -> (r: Result<
    usize,
    SkinError,
>)
    ensures
        r is Ok <==> joint_count * MATRIX_BYTES <= capacity_bytes,
        r is Ok ==> r->Ok_0 == joint_count * MATRIX_BYTES,
        r is Err ==> r->Err_0 == SkinError::TooManyJoints,
{
    if joint_count > capacity_bytes / MATRIX_BYTES {
        Err(SkinError::TooManyJoints)
    } else {
        Ok(joint_count * MATRIX_BYTES)
    }
}

/// In an identity pose (every joint's world transform the identity, with a
/// multiplication for which the identity is neutral on the left), each
/// skinning matrix is the joint's inverse-bind matrix alone.
pub proof fn lemma_identity_pose_skinning<M, F: Fn(M, M) -> M>(
    joints: Seq<usize>,
    inverse_binds: Seq<M>,
    world: Seq<M>,
    multiply: F,
    identity: M,
    r: Seq<M>,
)
    requires
        are_skinning_matrices(joints, inverse_binds, world, multiply, r),
        forall|j: int| 0 <= j < joints.len() ==> world[#[trigger] joints[j] as int] == identity,
        forall|x: M, y: M| #[trigger] multiply.ensures((identity, x), y) ==> y == x,
    ensures
        forall|j: int| 0 <= j < r.len() ==> #[trigger] r[j] == inverse_binds[j],
{
    assert forall|j: int| 0 <= j < r.len() implies #[trigger] r[j] == inverse_binds[j] by {
        assert(world[joints[j] as int] == identity);
        assert(multiply.ensures((identity, inverse_binds[j]), r[j]));
    }
}

} // verus!
