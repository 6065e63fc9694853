//! The shared entity store: an explicit arena of components indexed by
//! stable entity identifiers, plus the skin matrix buffer the renderer
//! reads.
//!
//! Every simulation stage works against this store; the fixed pipeline
//! order of the scheduler is what keeps their accesses exclusive.

use crate::mat::Mat4;
use vstd::prelude::*;

verus! {

/// World-transform component of one entity, written by the transform
/// propagation stage. Each write is tagged with the frame counter of the
/// frame that produced it, so that a later stage can only ever be shown to
/// read transforms of its own frame.
#[derive(Clone, Copy, PartialEq, Eq, Debug)]
pub struct TransformMatrix {
    /// Frame counter of the frame whose propagation wrote this value.
    pub frame: u64,
    /// The entity's world-transform matrix.
    pub matrix: Mat4,
}

/// A rig: an ordered sequence of joint entities, a parallel sequence of
/// inverse bind matrices, and the matrix buffer slot the rig renders from.
pub struct Skin {
    /// Destination slot in the skin matrix buffer.
    pub id: u32,
    /// Joint entities, in declared order.
    pub joints: Vec<usize>,
    /// One inverse bind matrix per joint, in the same order.
    pub inverse_bind_matrices: Vec<Mat4>,
}

/// An entity that carries a skin; the entity's own world transform is the
/// skeleton's root transform.
pub struct SkinEntity {
    /// The entity identifier.
    pub entity: usize,
    /// The skin component attached to it.
    pub skin: Skin,
}

/// The frame-persistent entity store.
pub struct World {
    /// World-transform components, indexed by entity identifier.
    pub transforms: Vec<Option<TransformMatrix>>,
    /// The entities that carry skins.
    pub skins: Vec<SkinEntity>,
}

/// The skin matrix buffer: one ordered slot of matrices per skin
/// identifier, consumed by the rendering stage. The skinning engine writes
/// into it but does not own its storage.
pub struct SkinsBuffer {
    /// Matrix slots, indexed by skin identifier.
    pub slots: Vec<Vec<Mat4>>,
}

/// A skin is well formed when it has exactly one inverse bind matrix per
/// joint.
pub open spec fn skin_wf(s: Skin) -> bool {
    s.joints@.len() == s.inverse_bind_matrices@.len()
}

/// An entity identifier resolves when it indexes the transform arena and
/// carries a world transform.
pub open spec fn entity_resolved(ts: Seq<Option<TransformMatrix>>, e: usize) -> bool {
    e < ts.len() && ts[e as int] is Some
}

/// The world transform of a resolved entity.
pub open spec fn transform_of(ts: Seq<Option<TransformMatrix>>, e: usize) -> TransformMatrix
    recommends
        entity_resolved(ts, e),
{
    ts[e as int]->Some_0
}

/// No two skins share a destination buffer slot.
pub open spec fn skin_ids_distinct(skins: Seq<SkinEntity>) -> bool {
    forall|i: int, j: int|
        0 <= i < skins.len() && 0 <= j < skins.len() && i != j
            ==> #[trigger] skins[i].skin.id != #[trigger] skins[j].skin.id
}

/// Store well-formedness: every skin is well formed, its root entity and
/// every one of its joints resolve to a world transform, and no two skins
/// share a buffer slot.
pub open spec fn store_wf(ts: Seq<Option<TransformMatrix>>, skins: Seq<SkinEntity>) -> bool {
    &&& forall|i: int|
        0 <= i < skins.len() ==> {
            &&& skin_wf(#[trigger] skins[i].skin)
            &&& entity_resolved(ts, skins[i].entity)
            &&& forall|n: int|
                0 <= n < skins[i].skin.joints@.len() ==> entity_resolved(
                    ts,
                    #[trigger] skins[i].skin.joints@[n],
                )
        }
    &&& skin_ids_distinct(skins)
}

/// Store well-formedness of a world value.
pub open spec fn world_wf(w: World) -> bool {
    store_wf(w.transforms@, w.skins@)
}

/// The slot contents of a buffer, as a sequence of sequences.
pub open spec fn slots_view(s: Seq<Vec<Mat4>>) -> Seq<Seq<Mat4>> {
    s.map_values(|v: Vec<Mat4>| v@)
}

/// The slots have room for every skin: each skin's slot exists and is
/// large enough for all of the skin's joints.
pub open spec fn slots_fit(skins: Seq<SkinEntity>, slots: Seq<Seq<Mat4>>) -> bool {
    forall|i: int|
        0 <= i < skins.len() ==> {
            &&& (#[trigger] skins[i].skin.id) < slots.len()
            &&& skins[i].skin.joints@.len() <= slots[skins[i].skin.id as int].len()
        }
}

/// The buffer has a slot for every skin, large enough for all of the
/// skin's joints.
pub open spec fn buffer_fits(w: World, b: SkinsBuffer) -> bool {
    slots_fit(w.skins@, slots_view(b.slots@))
}

/// Whether buffer slot `s` belongs to some skin of the world.
pub open spec fn is_skin_slot(skins: Seq<SkinEntity>, s: int) -> bool {
    exists|i: int| 0 <= i < skins.len() && #[trigger] skins[i].skin.id == s
}

} // verus!
