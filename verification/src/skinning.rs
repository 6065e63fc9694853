//! Skinning engine: computes, for every skeleton, which matrix products
//! make up each joint's skin matrix, and writes the results into the skin
//! matrix buffer the renderer reads.
//!
//! For a skeleton whose owning entity has world transform `T` and whose
//! joint `n` has world transform `T_n` and inverse bind matrix `B_n`, joint
//! `n`'s skin matrix is `inverse(T) * T_n * B_n`. The floating-point
//! inversions and products themselves are computed by the caller's
//! linear-algebra backend, in two round trips: the engine hands out the
//! root transforms to invert, then the exact ordered product requests, and
//! finally routes the returned products into the buffer. A skeleton whose
//! root did not invert is skipped for the frame and reported; every other
//! skeleton is unaffected.

use crate::mat::{Mat4, MatProduct};
use crate::world::{
    buffer_fits, entity_resolved, skin_ids_distinct, skin_wf, slots_fit, slots_view,
    transform_of, world_wf, SkinEntity, SkinsBuffer, TransformMatrix, World,
};
use vstd::prelude::*;

verus! {

/// A skeleton's root transform was not invertible; its update was skipped
/// for this frame.
#[derive(Clone, Copy, PartialEq, Eq, Structural, Debug)]
pub struct SingularTransformError {
    /// The entity owning the skipped skeleton.
    pub entity: usize,
}

/// Root world-transform matrix of skin `i`: the transform of the entity
/// that owns it.
pub open spec fn root_matrix(
    ts: Seq<Option<TransformMatrix>>,
    skins: Seq<SkinEntity>,
    i: int,
) -> Mat4
    recommends
        0 <= i < skins.len(),
        entity_resolved(ts, skins[i].entity),
{
    transform_of(ts, skins[i].entity).matrix
}

/// The ordered product requests for skin `i`, given its inverted root
/// transform: one `inv * T_n * B_n` request per joint, in declared joint
/// order; none when the root did not invert.
pub open spec fn skin_requests_spec(
    ts: Seq<Option<TransformMatrix>>,
    skins: Seq<SkinEntity>,
    i: int,
    inv: Option<Mat4>,
) -> Seq<MatProduct> {
    match inv {
        Option::None => Seq::empty(),
        Option::Some(m) => Seq::new(
            skins[i].skin.joints@.len(),
            |n: int|
                MatProduct {
                    a: m,
                    b: transform_of(ts, skins[i].skin.joints@[n]).matrix,
                    c: skins[i].skin.inverse_bind_matrices@[n],
                },
        ),
    }
}

/// A buffer slot after one skin's update: the first `njoints` entries are
/// replaced by the returned products, in joint order; the rest of the slot
/// is kept. A skipped skin leaves its slot untouched.
pub open spec fn skinned_slot_spec(
    slot0: Seq<Mat4>,
    inv: Option<Mat4>,
    njoints: int,
    prods: Seq<Mat4>,
) -> Seq<Mat4> {
    if inv is Some {
        Seq::new(slot0.len(), |k: int| if k < njoints { prods[k] } else { slot0[k] })
    } else {
        slot0
    }
}

/// The whole buffer after the first `i` skins have been processed in
/// order.
pub open spec fn skinned_slots_upto(
    skins: Seq<SkinEntity>,
    slots0: Seq<Seq<Mat4>>,
    invs: Seq<Option<Mat4>>,
    prods: Seq<Seq<Mat4>>,
    i: int,
) -> Seq<Seq<Mat4>>
    decreases i,
{
    if i <= 0 {
        slots0
    } else {
        let prev = skinned_slots_upto(skins, slots0, invs, prods, i - 1);
        let id = skins[i - 1].skin.id as int;
        prev.update(
            id,
            skinned_slot_spec(
                prev[id],
                invs[i - 1],
                skins[i - 1].skin.joints@.len() as int,
                prods[i - 1],
            ),
        )
    }
}

/// The whole buffer after every skin has been processed.
pub open spec fn skinned_slots_spec(
    skins: Seq<SkinEntity>,
    slots0: Seq<Seq<Mat4>>,
    invs: Seq<Option<Mat4>>,
    prods: Seq<Seq<Mat4>>,
) -> Seq<Seq<Mat4>> {
    skinned_slots_upto(skins, slots0, invs, prods, skins.len() as int)
}

/// The skeletons skipped among the first `i` skins: those whose root did
/// not invert, in skin order.
pub open spec fn skipped_upto(skins: Seq<SkinEntity>, invs: Seq<Option<Mat4>>, i: int) -> Seq<
    SingularTransformError,
>
    decreases i,
{
    if i <= 0 {
        Seq::empty()
    } else {
        skipped_upto(skins, invs, i - 1) + if invs[i - 1] is None {
            seq![SingularTransformError { entity: skins[i - 1].entity }]
        } else {
            Seq::<SingularTransformError>::empty()
        }
    }
}

/// Every skeleton skipped in a full run.
pub open spec fn skipped_spec(skins: Seq<SkinEntity>, invs: Seq<Option<Mat4>>) -> Seq<
    SingularTransformError,
> {
    skipped_upto(skins, invs, skins.len() as int)
}

/// The root transforms to invert, one per skin in skin order. The caller
/// inverts each with its linear-algebra backend and reports, per skin,
/// either the inverse or that the root was singular.
pub fn skinning_inverse_requests(world: &World) -> (r: Vec<Mat4>)
    requires
        world_wf(*world),
    ensures
        r@.len() == world.skins@.len(),
        forall|i: int|
            0 <= i < r@.len() ==> r@[i] == root_matrix(world.transforms@, world.skins@, i),
{
    let mut r: Vec<Mat4> = Vec::new();
    let mut i: usize = 0;
    while i < world.skins.len()
        invariant
            world_wf(*world),
            0 <= i <= world.skins@.len(),
            r@.len() == i,
            forall|j: int|
                0 <= j < i ==> r@[j] == root_matrix(world.transforms@, world.skins@, j),
        decreases world.skins@.len() - i,
    {
        let e = world.skins[i].entity;
        proof {
            assert(skin_wf(world.skins@[i as int].skin));
            assert(entity_resolved(world.transforms@, e));
        }
        r.push(world.transforms[e].unwrap().matrix);
        i = i + 1;
    }
    r
}

/// The exact ordered product requests for every skin, given the reported
/// root inverses: for skin `i` with inverse `m`, the request for joint `n`
/// is `m * T_n * B_n`; a skin whose root was singular requests nothing.
pub fn skinning_product_requests(world: &World, inverses: &Vec<Option<Mat4>>) -> (r: Vec<
    Vec<MatProduct>,
>)
    requires
        world_wf(*world),
        inverses@.len() == world.skins@.len(),
    ensures
        r@.len() == world.skins@.len(),
        forall|i: int|
            0 <= i < r@.len() ==> (#[trigger] r@[i])@ == skin_requests_spec(
                world.transforms@,
                world.skins@,
                i,
                inverses@[i],
            ),
{
    let mut r: Vec<Vec<MatProduct>> = Vec::new();
    let mut i: usize = 0;
    while i < world.skins.len()
        invariant
            world_wf(*world),
            inverses@.len() == world.skins@.len(),
            0 <= i <= world.skins@.len(),
            r@.len() == i,
            forall|j: int|
                0 <= j < i ==> (#[trigger] r@[j])@ == skin_requests_spec(
                    world.transforms@,
                    world.skins@,
                    j,
                    inverses@[j],
                ),
        decreases world.skins@.len() - i,
    {
        let mut reqs: Vec<MatProduct> = Vec::new();
        match inverses[i] {
            Option::Some(m) => {
                let skin = &world.skins[i].skin;
                let mut n: usize = 0;
                while n < skin.joints.len()
                    invariant
                        world_wf(*world),
                        0 <= i < world.skins@.len(),
                        *skin == world.skins@[i as int].skin,
                        0 <= n <= skin.joints@.len(),
                        reqs@.len() == n,
                        forall|k: int|
                            0 <= k < n ==> reqs@[k] == skin_requests_spec(
                                world.transforms@,
                                world.skins@,
                                i as int,
                                Some(m),
                            )[k],
                    decreases skin.joints@.len() - n,
                {
                    let joint = skin.joints[n];
                    proof {
                        assert(skin_wf(world.skins@[i as int].skin));
                        assert(entity_resolved(
                            world.transforms@,
                            world.skins@[i as int].skin.joints@[n as int],
                        ));
                    }
                    let joint_transform = world.transforms[joint].unwrap().matrix;
                    reqs.push(
                        MatProduct { a: m, b: joint_transform, c: skin.inverse_bind_matrices[n] },
                    );
                    n = n + 1;
                }
                assert(reqs@ =~= skin_requests_spec(
                    world.transforms@,
                    world.skins@,
                    i as int,
                    inverses@[i as int],
                ));
            },
            Option::None => {
                assert(reqs@ =~= skin_requests_spec(
                    world.transforms@,
                    world.skins@,
                    i as int,
                    inverses@[i as int],
                ));
            },
        }
        r.push(reqs);
        i = i + 1;
    }
    r
}

/// Walk every skin in order and write its joints' returned products into
/// its slot of the matrix buffer; skip, report and leave untouched every
/// skeleton whose root transform was singular.
///
/// `inverses` and `products` are the caller's answers to
/// `skinning_inverse_requests` and `skinning_product_requests`: per skin,
/// whether the root inverted, and the computed product for each requested
/// joint, in request order.
pub fn skinning_system(
    world: &World,
    inverses: &Vec<Option<Mat4>>,
    products: &Vec<Vec<Mat4>>,
    buffer: &mut SkinsBuffer,
) -> (skipped: Vec<SingularTransformError>)
    requires
        world_wf(*world),
        buffer_fits(*world, *old(buffer)),
        inverses@.len() == world.skins@.len(),
        products@.len() == world.skins@.len(),
        forall|i: int|
            0 <= i < world.skins@.len() && inverses@[i] is Some ==> (#[trigger] products@[i])@.len()
                == world.skins@[i].skin.joints@.len(),
    ensures
        slots_view(final(buffer).slots@) == skinned_slots_spec(
            world.skins@,
            slots_view(old(buffer).slots@),
            inverses@,
            slots_view(products@),
        ),
        skipped@ == skipped_spec(world.skins@, inverses@),
{
    let ghost slots0 = slots_view(buffer.slots@);
    let ghost prodsv = slots_view(products@);
    let mut skipped: Vec<SingularTransformError> = Vec::new();
    let mut i: usize = 0;
    while i < world.skins.len()
        invariant
            world_wf(*world),
            slots_fit(world.skins@, slots0),
            inverses@.len() == world.skins@.len(),
            products@.len() == world.skins@.len(),
            forall|j: int|
                0 <= j < world.skins@.len() && inverses@[j] is Some ==> (
                #[trigger] products@[j])@.len() == world.skins@[j].skin.joints@.len(),
            prodsv == slots_view(products@),
            0 <= i <= world.skins@.len(),
            slots_view(buffer.slots@) == skinned_slots_upto(
                world.skins@,
                slots0,
                inverses@,
                prodsv,
                i as int,
            ),
            skipped@ == skipped_upto(world.skins@, inverses@, i as int),
        decreases world.skins@.len() - i,
    {
        proof {
            lemma_skinned_slots_upto_len(world.skins@, slots0, inverses@, prodsv, i as int);
            lemma_untouched_prefix(world.skins@, slots0, inverses@, prodsv, i as int, i as int);
            assert(skin_wf(world.skins@[i as int].skin));
            assert(world.skins@[i as int].skin.id < slots0.len());
        }
        let skin = &world.skins[i].skin;
        let id = skin.id as usize;
        let ghost prev = slots_view(buffer.slots@);
        proof {
            assert(prev[id as int] == buffer.slots@[id as int]@);
            assert(prev[id as int] == slots0[id as int]);
        }
        match inverses[i] {
            Option::Some(_m) => {
                proof {
                    assert(products@[i as int]@.len() == world.skins@[i as int].skin.joints@.len());
                    assert(prodsv[i as int] == products@[i as int]@);
                }
                let nj = skin.joints.len();
                let prods_i = &products[i];
                let mut new_slot: Vec<Mat4> = Vec::new();
                let mut n: usize = 0;
                while n < nj
                    invariant
                        0 <= n <= nj,
                        nj == prods_i@.len(),
                        new_slot@.len() == n,
                        forall|k: int| 0 <= k < n ==> new_slot@[k] == prods_i@[k],
                    decreases nj - n,
                {
                    new_slot.push(prods_i[n]);
                    n = n + 1;
                }
                let slot_len = buffer.slots[id].len();
                while n < slot_len
                    invariant
                        nj <= n <= slot_len,
                        id < buffer.slots@.len(),
                        slot_len == buffer.slots@[id as int]@.len(),
                        new_slot@.len() == n,
                        nj == prods_i@.len(),
                        forall|k: int| 0 <= k < nj ==> new_slot@[k] == prods_i@[k],
                        forall|k: int|
                            nj <= k < n ==> new_slot@[k] == buffer.slots@[id as int]@[k],
                    decreases slot_len - n,
                {
                    let entry = buffer.slots[id][n];
                    new_slot.push(entry);
                    n = n + 1;
                }
                assert(new_slot@ =~= skinned_slot_spec(
                    prev[id as int],
                    inverses@[i as int],
                    nj as int,
                    prodsv[i as int],
                ));
                buffer.slots.set(id, new_slot);
                assert(slots_view(buffer.slots@) =~= prev.update(id as int, new_slot@));
                assert(slots_view(buffer.slots@) == skinned_slots_upto(
                    world.skins@,
                    slots0,
                    inverses@,
                    prodsv,
                    i as int + 1,
                ));
                assert(skipped@ =~= skipped_upto(world.skins@, inverses@, i as int + 1));
            },
            Option::None => {
                skipped.push(SingularTransformError { entity: world.skins[i].entity });
                proof {
                    assert(skinned_slots_upto(
                        world.skins@,
                        slots0,
                        inverses@,
                        prodsv,
                        i as int + 1,
                    ) =~= prev);
                    assert(skipped@ =~= skipped_upto(world.skins@, inverses@, i as int + 1));
                }
            },
        }
        i = i + 1;
    }
    skipped
}

/// Processing skins preserves the number of buffer slots.
pub proof fn lemma_skinned_slots_upto_len(
    skins: Seq<SkinEntity>,
    slots0: Seq<Seq<Mat4>>,
    invs: Seq<Option<Mat4>>,
    prods: Seq<Seq<Mat4>>,
    i: int,
)
    requires
        slots_fit(skins, slots0),
        i <= skins.len(),
    ensures
        skinned_slots_upto(skins, slots0, invs, prods, i).len() == slots0.len(),
    decreases i,
{
    if i > 0 {
        lemma_skinned_slots_upto_len(skins, slots0, invs, prods, i - 1);
    }
}

/// Processing skins preserves the length of every individual slot: a
/// skin's update replaces entries, it never grows or shrinks the slot.
pub proof fn lemma_slot_lengths_preserved(
    skins: Seq<SkinEntity>,
    slots0: Seq<Seq<Mat4>>,
    invs: Seq<Option<Mat4>>,
    prods: Seq<Seq<Mat4>>,
    i: int,
)
    requires
        slots_fit(skins, slots0),
        0 <= i <= skins.len(),
    ensures
        skinned_slots_upto(skins, slots0, invs, prods, i).len() == slots0.len(),
        forall|s: int|
            0 <= s < slots0.len() ==> (#[trigger] skinned_slots_upto(
                skins,
                slots0,
                invs,
                prods,
                i,
            )[s]).len() == slots0[s].len(),
    decreases i,
{
    if i > 0 {
        lemma_slot_lengths_preserved(skins, slots0, invs, prods, i - 1);
    }
}

/// A slot that none of the first `i` skins owns still holds its original
/// contents after they are processed; in particular a slot owned by skin
/// `j` with `j >= i` is untouched by the first `i` steps.
pub proof fn lemma_untouched_prefix(
    skins: Seq<SkinEntity>,
    slots0: Seq<Seq<Mat4>>,
    invs: Seq<Option<Mat4>>,
    prods: Seq<Seq<Mat4>>,
    i: int,
    j: int,
)
    requires
        skin_ids_distinct(skins),
        slots_fit(skins, slots0),
        0 <= i <= skins.len(),
        i <= j < skins.len(),
    ensures
        skinned_slots_upto(skins, slots0, invs, prods, i)[skins[j].skin.id as int]
            == slots0[skins[j].skin.id as int],
    decreases i,
{
    if i > 0 {
        lemma_untouched_prefix(skins, slots0, invs, prods, i - 1, j);
        lemma_skinned_slots_upto_len(skins, slots0, invs, prods, i - 1);
    }
}

/// A slot that no skin at all owns is untouched by a full run.
pub proof fn lemma_foreign_slot_untouched(
    skins: Seq<SkinEntity>,
    slots0: Seq<Seq<Mat4>>,
    invs: Seq<Option<Mat4>>,
    prods: Seq<Seq<Mat4>>,
    s: int,
    i: int,
)
    requires
        skin_ids_distinct(skins),
        slots_fit(skins, slots0),
        0 <= s < slots0.len(),
        !crate::world::is_skin_slot(skins, s),
        0 <= i <= skins.len(),
    ensures
        skinned_slots_upto(skins, slots0, invs, prods, i)[s] == slots0[s],
    decreases i,
{
    if i > 0 {
        lemma_foreign_slot_untouched(skins, slots0, invs, prods, s, i - 1);
        lemma_skinned_slots_upto_len(skins, slots0, invs, prods, i - 1);
        assert(skins[i - 1].skin.id != s);
    }
}

/// Steps from `i` on never touch the slot of skin `j` when `j < i`.
proof fn lemma_later_steps_preserve(
    skins: Seq<SkinEntity>,
    slots0: Seq<Seq<Mat4>>,
    invs: Seq<Option<Mat4>>,
    prods: Seq<Seq<Mat4>>,
    i: int,
    j: int,
)
    requires
        skin_ids_distinct(skins),
        slots_fit(skins, slots0),
        0 <= j < i <= skins.len(),
    ensures
        skinned_slots_upto(skins, slots0, invs, prods, i)[skins[j].skin.id as int]
            == skinned_slots_upto(skins, slots0, invs, prods, j + 1)[skins[j].skin.id as int],
    decreases i - j,
{
    if i > j + 1 {
        lemma_later_steps_preserve(skins, slots0, invs, prods, i - 1, j);
        lemma_skinned_slots_upto_len(skins, slots0, invs, prods, i - 1);
    }
}

/// Law: skeletons are isolated. After a full run, the slot of skin `i`
/// holds exactly its own update — its original contents when its root was
/// singular, its own joints' products otherwise — whatever happened to
/// every other skeleton in the same frame.
pub proof fn lemma_skeleton_isolation(
    skins: Seq<SkinEntity>,
    slots0: Seq<Seq<Mat4>>,
    invs: Seq<Option<Mat4>>,
    prods: Seq<Seq<Mat4>>,
    i: int,
)
    requires
        skin_ids_distinct(skins),
        slots_fit(skins, slots0),
        0 <= i < skins.len(),
    ensures
        skinned_slots_spec(skins, slots0, invs, prods)[skins[i].skin.id as int]
            == skinned_slot_spec(
            slots0[skins[i].skin.id as int],
            invs[i],
            skins[i].skin.joints@.len() as int,
            prods[i],
        ),
{
    lemma_untouched_prefix(skins, slots0, invs, prods, i, i);
    lemma_skinned_slots_upto_len(skins, slots0, invs, prods, i);
    lemma_later_steps_preserve(skins, slots0, invs, prods, skins.len() as int, i);
}

} // verus!
