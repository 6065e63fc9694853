//! Stage scheduler: runs the fixed per-frame pipeline of parallel-safe
//! simulation stages interleaved with thread-confined synchronization
//! stages, exactly once per frame and always in the same order.
//!
//! The engine is driven stage by stage by the embedding application, which
//! performs the device work (runtime calls, physics ticks, draw
//! submissions) and reports plain-value outcomes back. The engine decides
//! every transition: which stage may run next, what a failure means, when
//! the frame counter advances, and when the session is beyond recovery.
//! The closing stage of a frame is reached if and only if its opening
//! stage succeeded; a frame whose opening fails is dropped whole.

use crate::frame::{
    begin_spec, end_spec, frame_wf, BeginFrameOutcome, FrameAcquisitionError, FrameController,
    FrameSubmission, FrameSubmissionError,
};
use crate::mat::{Mat4, MatProduct};
use crate::session::{
    can_submit_spec, poll_spec, Session, SessionEvent, SessionLossError, SessionState,
    SessionTerminationError,
};
use crate::skinning::{
    lemma_slot_lengths_preserved, skin_requests_spec, skinned_slots_spec,
    skinning_inverse_requests, skinning_product_requests, skinning_system, skipped_spec,
    root_matrix, SingularTransformError,
};
use crate::world::{
    buffer_fits, entity_resolved, skin_wf, slots_fit, slots_view, store_wf, transform_of,
    world_wf, SkinEntity, SkinsBuffer, TransformMatrix, World,
};
use vstd::prelude::*;

verus! {

/// The stages of the per-frame pipeline, in their fixed order.
#[derive(Clone, Copy, PartialEq, Eq, Structural, Debug)]
pub enum Stage {
    /// Open the frame and acquire a swapchain image (thread-confined).
    BeginFrame,
    /// Collision detection over current transforms (parallel-safe).
    Collision,
    /// Advance the rigid-body simulation one tick (thread-confined).
    PhysicsStep,
    /// Per-domain gameplay systems (parallel-safe).
    Gameplay,
    /// Rigid-body to transform synchronization (parallel-safe).
    RigidBodySync,
    /// Local-to-world transform-matrix propagation (parallel-safe).
    TransformPropagation,
    /// Skinning over the propagated transforms (parallel-safe).
    Skinning,
    /// Best-effort publication of a debug snapshot (thread-confined).
    DebugSync,
    /// Rendering: consumes transforms, skin matrices and the acquired
    /// image (parallel-safe).
    Rendering,
    /// Release the image and submit the layer set (thread-confined).
    EndFrame,
}

/// How a stage may execute.
#[derive(Clone, Copy, PartialEq, Eq, Structural, Debug)]
pub enum StageKind {
    /// Must run alone on the thread owning the device handles; a hard
    /// synchronization barrier stands before and after it.
    Exclusive,
    /// May use worker threads over the entity store.
    Parallel,
}

/// The fixed stage order of one frame.
pub open spec fn stage_order_spec() -> Seq<Stage> {
    seq![
        Stage::BeginFrame,
        Stage::Collision,
        Stage::PhysicsStep,
        Stage::Gameplay,
        Stage::RigidBodySync,
        Stage::TransformPropagation,
        Stage::Skinning,
        Stage::DebugSync,
        Stage::Rendering,
        Stage::EndFrame,
    ]
}

/// Position of a stage in the fixed order.
pub open spec fn stage_index(s: Stage) -> int {
    match s {
        Stage::BeginFrame => 0,
        Stage::Collision => 1,
        Stage::PhysicsStep => 2,
        Stage::Gameplay => 3,
        Stage::RigidBodySync => 4,
        Stage::TransformPropagation => 5,
        Stage::Skinning => 6,
        Stage::DebugSync => 7,
        Stage::Rendering => 8,
        Stage::EndFrame => 9,
    }
}

/// Which kind each stage has: the device-bound synchronization points are
/// exclusive, the simulation stages are parallel-safe.
pub open spec fn stage_kind_spec(s: Stage) -> StageKind {
    match s {
        Stage::BeginFrame => StageKind::Exclusive,
        Stage::PhysicsStep => StageKind::Exclusive,
        Stage::DebugSync => StageKind::Exclusive,
        Stage::EndFrame => StageKind::Exclusive,
        _ => StageKind::Parallel,
    }
}

/// The stage that follows `s` in the pipeline; the closing stage wraps to
/// the opening stage of the next frame.
pub open spec fn stage_after_spec(s: Stage) -> Stage {
    match s {
        Stage::BeginFrame => Stage::Collision,
        Stage::Collision => Stage::PhysicsStep,
        Stage::PhysicsStep => Stage::Gameplay,
        Stage::Gameplay => Stage::RigidBodySync,
        Stage::RigidBodySync => Stage::TransformPropagation,
        Stage::TransformPropagation => Stage::Skinning,
        Stage::Skinning => Stage::DebugSync,
        Stage::DebugSync => Stage::Rendering,
        Stage::Rendering => Stage::EndFrame,
        Stage::EndFrame => Stage::BeginFrame,
    }
}

/// The stages whose work is done by an outside collaborator and reported
/// back with no data for the engine.
pub open spec fn collaborator_stage(s: Stage) -> bool {
    ||| s == Stage::Collision
    ||| s == Stage::PhysicsStep
    ||| s == Stage::Gameplay
    ||| s == Stage::RigidBodySync
    ||| s == Stage::Rendering
}

/// The kind of a stage, as executable code.
pub fn stage_kind(s: Stage) -> (k: StageKind)
    ensures
        k == stage_kind_spec(s),
{
    match s {
        Stage::BeginFrame => StageKind::Exclusive,
        Stage::PhysicsStep => StageKind::Exclusive,
        Stage::DebugSync => StageKind::Exclusive,
        Stage::EndFrame => StageKind::Exclusive,
        _ => StageKind::Parallel,
    }
}

/// The fixed stage order of one frame, as executable code.
pub fn standard_schedule() -> (r: Vec<Stage>)
    ensures
        r@ == stage_order_spec(),
{
    let mut r: Vec<Stage> = Vec::new();
    r.push(Stage::BeginFrame);
    r.push(Stage::Collision);
    r.push(Stage::PhysicsStep);
    r.push(Stage::Gameplay);
    r.push(Stage::RigidBodySync);
    r.push(Stage::TransformPropagation);
    r.push(Stage::Skinning);
    r.push(Stage::DebugSync);
    r.push(Stage::Rendering);
    r.push(Stage::EndFrame);
    assert(r@ =~= stage_order_spec());
    r
}

/// Law: the successor function walks the fixed order, stage by stage, and
/// wraps from the closing stage of one frame to the opening stage of the
/// next: no stage can be reordered, inserted or skipped.
#[verifier::rlimit(50)]
pub proof fn lemma_schedule_order()
    ensures
        forall|k: int|
            0 <= k < 9 ==> stage_after_spec(#[trigger] stage_order_spec()[k])
                == stage_order_spec()[k + 1],
        stage_after_spec(stage_order_spec()[9]) == Stage::BeginFrame,
        forall|s: Stage| stage_order_spec()[stage_index(s)] == s,
{
    assert forall|k: int| 0 <= k < 9 implies stage_after_spec(#[trigger] stage_order_spec()[k])
        == stage_order_spec()[k + 1] by {
        if k == 0 {
        } else if k == 1 {
        } else if k == 2 {
        } else if k == 3 {
        } else if k == 4 {
        } else if k == 5 {
        } else if k == 6 {
        } else if k == 7 {
        } else {
            assert(k == 8);
        }
    }
    assert forall|s: Stage| stage_order_spec()[stage_index(s)] == s by {
        match s {
            Stage::BeginFrame => assert(stage_order_spec()[0] == Stage::BeginFrame),
            Stage::Collision => assert(stage_order_spec()[1] == Stage::Collision),
            Stage::PhysicsStep => assert(stage_order_spec()[2] == Stage::PhysicsStep),
            Stage::Gameplay => assert(stage_order_spec()[3] == Stage::Gameplay),
            Stage::RigidBodySync => assert(stage_order_spec()[4] == Stage::RigidBodySync),
            Stage::TransformPropagation => assert(stage_order_spec()[5]
                == Stage::TransformPropagation),
            Stage::Skinning => assert(stage_order_spec()[6] == Stage::Skinning),
            Stage::DebugSync => assert(stage_order_spec()[7] == Stage::DebugSync),
            Stage::Rendering => assert(stage_order_spec()[8] == Stage::Rendering),
            Stage::EndFrame => assert(stage_order_spec()[9] == Stage::EndFrame),
        }
    }
}

/// Where the engine stands: about to run a stage, or beyond recovery
/// (after a lost session, a stranded image or a failed release) with no
/// further frames possible.
#[derive(Clone, Copy, PartialEq, Eq, Structural, Debug)]
pub enum EnginePhase {
    /// The given stage is the next to run.
    AtStage(Stage),
    /// The session must be torn down; no stage may run again.
    TornDown,
}

/// Abstract state of the engine: the same data as the engine itself, with
/// the collections read as sequences. Every engine operation is specified
/// as a transition on this model.
pub struct EngineModel {
    /// Where the engine stands in the pipeline.
    pub phase: EnginePhase,
    /// Completed frames since the engine was created.
    pub frame_counter: nat,
    /// The session state machine.
    pub session: Session,
    /// The frame loop controller.
    pub frame: FrameController,
    /// The transform components, by entity identifier.
    pub transforms: Seq<Option<TransformMatrix>>,
    /// The entities carrying skins.
    pub skins: Seq<SkinEntity>,
    /// The skin matrix buffer contents.
    pub slots: Seq<Seq<Mat4>>,
}

/// The engine: owns the session, the frame loop controller, the entity
/// store and the skin matrix buffer, and is the single ordering authority
/// over the pipeline.
pub struct Engine {
    /// Where the engine stands in the pipeline.
    pub phase: EnginePhase,
    /// Completed frames since the engine was created.
    pub frame_counter: u64,
    /// The session state machine.
    pub session: Session,
    /// The frame loop controller.
    pub frame: FrameController,
    /// The entity store.
    pub world: World,
    /// The skin matrix buffer.
    pub buffer: SkinsBuffer,
}

impl View for Engine {
    type V = EngineModel;

    open spec fn view(&self) -> EngineModel {
        EngineModel {
            phase: self.phase,
            frame_counter: self.frame_counter as nat,
            session: self.session,
            frame: self.frame,
            transforms: self.world.transforms@,
            skins: self.world.skins@,
            slots: slots_view(self.buffer.slots@),
        }
    }
}

/// Every transform component currently stored was written by frame `f`'s
/// propagation.
pub open spec fn all_transforms_current(ts: Seq<Option<TransformMatrix>>, f: nat) -> bool {
    forall|t: int| 0 <= t < ts.len() && ts[t] is Some ==> (#[trigger] ts[t])->Some_0.frame == f
}

/// The engine stands inside a frame, after transform propagation has
/// published this frame's world transforms.
pub open spec fn past_propagation(p: EnginePhase) -> bool {
    match p {
        EnginePhase::AtStage(s) => stage_index(s) > stage_index(Stage::TransformPropagation),
        EnginePhase::TornDown => false,
    }
}

/// How the frame protocol relates to the pipeline position: between
/// frames nothing is acquired; inside a frame the image is held; a torn
/// down engine makes no promise.
pub open spec fn phase_frame_ok(m: EngineModel) -> bool {
    match m.phase {
        EnginePhase::AtStage(Stage::BeginFrame) => !m.frame.acquired && !m.frame.needs_teardown,
        EnginePhase::AtStage(_) => m.frame.acquired && !m.frame.needs_teardown,
        EnginePhase::TornDown => true,
    }
}

/// Engine well-formedness: the frame protocol, the entity store and the
/// buffer are each well formed, the protocol state matches the pipeline
/// position, and — once propagation has run — every stored transform
/// carries the current frame's tag, so no stage after propagation can read
/// a transform of an earlier or later frame.
pub open spec fn model_wf(m: EngineModel) -> bool {
    &&& frame_wf(m.frame)
    &&& store_wf(m.transforms, m.skins)
    &&& slots_fit(m.skins, m.slots)
    &&& phase_frame_ok(m)
    &&& (past_propagation(m.phase) ==> all_transforms_current(m.transforms, m.frame_counter))
}

/// Transition for the opening stage: on success the pipeline advances; a
/// failure before acquisition drops the frame and leaves the engine ready
/// for the next one; a failure that strands an acquired image tears the
/// engine down.
pub open spec fn begin_transition(m: EngineModel, outcome: BeginFrameOutcome) -> (EngineModel,
    Result<(), FrameAcquisitionError>,
) {
    let (fc, r) = begin_spec(m.frame, outcome);
    let phase = if r is Ok {
        EnginePhase::AtStage(Stage::Collision)
    } else if fc.needs_teardown {
        EnginePhase::TornDown
    } else {
        EnginePhase::AtStage(Stage::BeginFrame)
    };
    (EngineModel { phase, frame: fc, ..m }, r)
}

/// Transition for a collaborator stage reporting completion: the pipeline
/// advances, nothing else changes.
pub open spec fn stage_done_transition(m: EngineModel, s: Stage) -> EngineModel {
    EngineModel { phase: EnginePhase::AtStage(stage_after_spec(s)), ..m }
}

/// Transition for the best-effort debug snapshot stage: whether or not
/// publication succeeded, the failure is swallowed and the pipeline
/// advances.
pub open spec fn debug_sync_transition(m: EngineModel, published: bool) -> EngineModel {
    EngineModel { phase: EnginePhase::AtStage(Stage::Rendering), ..m }
}

/// The transform components after propagation publishes new world
/// matrices in frame `f`: every component is rewritten and tagged with
/// `f`.
pub open spec fn tagged_transforms(mats: Seq<Option<Mat4>>, f: nat) -> Seq<
    Option<TransformMatrix>,
> {
    Seq::new(
        mats.len(),
        |t: int|
            match mats[t] {
                Option::Some(mx) => Option::Some(
                    TransformMatrix { frame: f as u64, matrix: mx },
                ),
                Option::None => Option::None,
            },
    )
}

/// Transition for transform propagation: the collaborator's world
/// matrices replace the stored ones, all tagged with the current frame.
pub open spec fn propagation_transition(m: EngineModel, mats: Seq<Option<Mat4>>) -> EngineModel {
    EngineModel {
        phase: EnginePhase::AtStage(Stage::Skinning),
        transforms: tagged_transforms(mats, m.frame_counter),
        ..m
    }
}

/// Transition for the skinning stage: the buffer takes every skeleton's
/// update, skeletons whose root was singular are skipped and reported.
pub open spec fn skinning_transition(
    m: EngineModel,
    invs: Seq<Option<Mat4>>,
    prods: Seq<Seq<Mat4>>,
) -> (EngineModel, Seq<SingularTransformError>) {
    (
        EngineModel {
            phase: EnginePhase::AtStage(Stage::DebugSync),
            slots: skinned_slots_spec(m.skins, m.slots, invs, prods),
            ..m
        },
        skipped_spec(m.skins, invs),
    )
}

/// Transition for the closing stage: the release either succeeds — the
/// frame is complete, the counter advances by exactly one, and the engine
/// is ready for the next frame — or fails, tearing the engine down with
/// the counter unchanged.
pub open spec fn end_transition(m: EngineModel, release_ok: bool) -> (EngineModel, Result<
    FrameSubmission,
    FrameSubmissionError,
>) {
    let (fc, r) = end_spec(m.frame, release_ok);
    if release_ok {
        (
            EngineModel {
                phase: EnginePhase::AtStage(Stage::BeginFrame),
                frame: fc,
                frame_counter: m.frame_counter + 1,
                ..m
            },
            r,
        )
    } else {
        (EngineModel { phase: EnginePhase::TornDown, frame: fc, ..m }, r)
    }
}

/// Transition for event polling between frames: the session machine
/// drains the events; a reported loss tears the engine down.
pub open spec fn poll_transition(m: EngineModel, events: Seq<SessionEvent>) -> (EngineModel,
    Result<SessionState, SessionLossError>,
) {
    let (s, r) = poll_spec(m.session, events);
    (
        EngineModel {
            session: s,
            phase: if r is Err {
                EnginePhase::TornDown
            } else {
                m.phase
            },
            ..m
        },
        r,
    )
}

/// Transition for ending the session: whatever the runtime answers, no
/// further frames may be submitted.
pub open spec fn end_session_transition(m: EngineModel, runtime_accepted: bool) -> (EngineModel,
    Result<(), SessionTerminationError>,
) {
    (
        EngineModel {
            session: Session { ended: true, ..m.session },
            phase: EnginePhase::TornDown,
            ..m
        },
        if runtime_accepted {
            Ok(())
        } else {
            Err(SessionTerminationError)
        },
    )
}

/// The stage that follows `s`, as executable code.
pub fn stage_after(s: Stage) -> (r: Stage)
    ensures
        r == stage_after_spec(s),
{
    match s {
        Stage::BeginFrame => Stage::Collision,
        Stage::Collision => Stage::PhysicsStep,
        Stage::PhysicsStep => Stage::Gameplay,
        Stage::Gameplay => Stage::RigidBodySync,
        Stage::RigidBodySync => Stage::TransformPropagation,
        Stage::TransformPropagation => Stage::Skinning,
        Stage::Skinning => Stage::DebugSync,
        Stage::DebugSync => Stage::Rendering,
        Stage::Rendering => Stage::EndFrame,
        Stage::EndFrame => Stage::BeginFrame,
    }
}

impl Engine {
    /// A fresh engine over the given store and buffer: no frame open, no
    /// frame completed, session idle.
    pub fn new(
        world: World,
        buffer: SkinsBuffer,
        swapchain_width: u32,
        swapchain_height: u32,
    ) -> (e: Engine)
        requires
            world_wf(world),
            buffer_fits(world, buffer),
            swapchain_width <= i32::MAX,
            swapchain_height <= i32::MAX,
        ensures
            e@.phase == EnginePhase::AtStage(Stage::BeginFrame),
            e@.frame_counter == 0,
            e@.session == (Session { state: SessionState::Idle, ended: false, lost: false }),
            !e@.frame.acquired,
            e@.frame.swapchain_width == swapchain_width,
            e@.frame.swapchain_height == swapchain_height,
            e@.transforms == world.transforms@,
            e@.skins == world.skins@,
            e@.slots == slots_view(buffer.slots@),
            model_wf(e@),
    {
        Engine {
            phase: EnginePhase::AtStage(Stage::BeginFrame),
            frame_counter: 0,
            session: Session::new(),
            frame: FrameController::new(swapchain_width, swapchain_height),
            world,
            buffer,
        }
    }

    /// The stage that must run next, or nothing when the engine is torn
    /// down.
    pub fn next_stage(&self) -> (r: Option<Stage>)
        ensures
            r == (match self@.phase {
                EnginePhase::AtStage(s) => Some(s),
                EnginePhase::TornDown => None::<Stage>,
            }),
    {
        match self.phase {
            EnginePhase::AtStage(s) => Some(s),
            EnginePhase::TornDown => None,
        }
    }

    /// Drain runtime events between frames. A reported session loss tears
    /// the engine down: no further stage will run.
    pub fn poll_events(&mut self, events: &Vec<SessionEvent>) -> (r: Result<
        SessionState,
        SessionLossError,
    >)
        requires
            old(self)@.phase == EnginePhase::AtStage(Stage::BeginFrame),
            model_wf(old(self)@),
        ensures
            (final(self)@, r) == poll_transition(old(self)@, events@),
            model_wf(final(self)@),
    {
        match self.session.poll_events(events) {
            Ok(st) => Ok(st),
            Err(e) => {
                self.phase = EnginePhase::TornDown;
                Err(e)
            },
        }
    }

    /// Run the opening stage, given the reported outcome of the runtime
    /// calls. A frame that fails to open is dropped whole: the engine
    /// stays ready for the next frame (or is torn down if an image was
    /// stranded), and the closing stage will not be attempted.
    pub fn begin_frame(&mut self, outcome: BeginFrameOutcome) -> (r: Result<
        (),
        FrameAcquisitionError,
    >)
        requires
            old(self)@.phase == EnginePhase::AtStage(Stage::BeginFrame),
            model_wf(old(self)@),
            can_submit_spec(old(self)@.session),
        ensures
            (final(self)@, r) == begin_transition(old(self)@, outcome),
            model_wf(final(self)@),
    {
        match self.frame.begin_frame(outcome) {
            Ok(u) => {
                self.phase = EnginePhase::AtStage(Stage::Collision);
                Ok(u)
            },
            Err(e) => {
                if self.frame.needs_teardown {
                    self.phase = EnginePhase::TornDown;
                }
                Err(e)
            },
        }
    }

    /// A collaborator stage (collision, physics, gameplay, rigid-body
    /// synchronization, rendering) reports completion: the pipeline
    /// advances to the next stage and nothing else changes.
    pub fn stage_done(&mut self, s: Stage)
        requires
            old(self)@.phase == EnginePhase::AtStage(s),
            collaborator_stage(s),
            model_wf(old(self)@),
        ensures
            final(self)@ == stage_done_transition(old(self)@, s),
            model_wf(final(self)@),
    {
        self.phase = EnginePhase::AtStage(stage_after(s));
    }

    /// The best-effort debug snapshot stage reports whether publication
    /// succeeded. Failures are swallowed, never propagated: the pipeline
    /// advances either way.
    pub fn sync_debug(&mut self, published: bool)
        requires
            old(self)@.phase == EnginePhase::AtStage(Stage::DebugSync),
            model_wf(old(self)@),
        ensures
            final(self)@ == debug_sync_transition(old(self)@, published),
            model_wf(final(self)@),
    {
        self.phase = EnginePhase::AtStage(Stage::Rendering);
    }

    /// The transform propagation stage publishes this frame's world
    /// matrices: every stored transform is replaced and tagged with the
    /// current frame counter. Propagation resolves the same entities it
    /// resolved before: it rewrites components, it does not add or remove
    /// them.
    pub fn set_transforms(&mut self, matrices: &Vec<Option<Mat4>>)
        requires
            old(self)@.phase == EnginePhase::AtStage(Stage::TransformPropagation),
            model_wf(old(self)@),
            matrices@.len() == old(self)@.transforms.len(),
            forall|t: int|
                0 <= t < matrices@.len() ==> ((#[trigger] matrices@[t]) is Some <==> old(
                    self,
                )@.transforms[t] is Some),
        ensures
            final(self)@ == propagation_transition(old(self)@, matrices@),
            model_wf(final(self)@),
    {
        let n = self.world.transforms.len();
        let mut t: usize = 0;
        while t < n
            invariant
                n == self.world.transforms@.len(),
                matrices@.len() == n,
                0 <= t <= n,
                self.phase == old(self).phase,
                self.frame_counter == old(self).frame_counter,
                self.session == old(self).session,
                self.frame == old(self).frame,
                self.world.skins@ == old(self).world.skins@,
                self.buffer.slots@ == old(self).buffer.slots@,
                forall|k: int|
                    0 <= k < t ==> self.world.transforms@[k] == tagged_transforms(
                        matrices@,
                        old(self).frame_counter as nat,
                    )[k],
                forall|k: int|
                    t <= k < n ==> self.world.transforms@[k] == old(self).world.transforms@[k],
            decreases n - t,
        {
            match matrices[t] {
                Option::Some(mx) => {
                    self.world.transforms.set(
                        t,
                        Some(TransformMatrix { frame: self.frame_counter, matrix: mx }),
                    );
                },
                Option::None => {
                    self.world.transforms.set(t, None);
                },
            }
            t = t + 1;
        }
        self.phase = EnginePhase::AtStage(Stage::Skinning);
        proof {
            let m0 = old(self)@;
            let ts1 = tagged_transforms(matrices@, m0.frame_counter);
            assert(self.world.transforms@ =~= ts1);
            assert(self@ == propagation_transition(m0, matrices@));
            assert forall|i: int| 0 <= i < m0.skins.len() implies {
                &&& skin_wf(#[trigger] m0.skins[i].skin)
                &&& entity_resolved(ts1, m0.skins[i].entity)
                &&& forall|j: int|
                    0 <= j < m0.skins[i].skin.joints@.len() ==> entity_resolved(
                        ts1,
                        #[trigger] m0.skins[i].skin.joints@[j],
                    )
            } by {
                assert(skin_wf(m0.skins[i].skin));
                assert(entity_resolved(m0.transforms, m0.skins[i].entity));
                assert(matrices@[m0.skins[i].entity as int] is Some);
                assert forall|j: int| 0 <= j < m0.skins[i].skin.joints@.len() implies
                    entity_resolved(ts1, #[trigger] m0.skins[i].skin.joints@[j]) by {
                    assert(entity_resolved(m0.transforms, m0.skins[i].skin.joints@[j]));
                    assert(matrices@[m0.skins[i].skin.joints@[j] as int] is Some);
                }
            }
            assert(store_wf(ts1, m0.skins));
        }
    }

    /// The root transforms to invert for this frame's skinning, one per
    /// skin in skin order.
    pub fn skin_roots(&self) -> (r: Vec<Mat4>)
        requires
            self@.phase == EnginePhase::AtStage(Stage::Skinning),
            model_wf(self@),
        ensures
            r@.len() == self@.skins.len(),
            forall|i: int|
                0 <= i < r@.len() ==> r@[i] == root_matrix(self@.transforms, self@.skins, i),
    {
        skinning_inverse_requests(&self.world)
    }

    /// The exact ordered product requests for this frame's skinning,
    /// given the reported root inverses.
    pub fn skin_product_requests(&self, inverses: &Vec<Option<Mat4>>) -> (r: Vec<Vec<MatProduct>>)
        requires
            self@.phase == EnginePhase::AtStage(Stage::Skinning),
            model_wf(self@),
            inverses@.len() == self@.skins.len(),
        ensures
            r@.len() == self@.skins.len(),
            forall|i: int|
                0 <= i < r@.len() ==> (#[trigger] r@[i])@ == skin_requests_spec(
                    self@.transforms,
                    self@.skins,
                    i,
                    inverses@[i],
                ),
    {
        skinning_product_requests(&self.world, inverses)
    }

    /// Run the skinning stage: route every skeleton's computed products
    /// into its buffer slot, skip and report the skeletons whose root was
    /// singular, and advance the pipeline. A skipped skeleton never
    /// disturbs a sibling: each slot takes exactly its own skin's update.
    pub fn apply_skinning(
        &mut self,
        inverses: &Vec<Option<Mat4>>,
        products: &Vec<Vec<Mat4>>,
    ) -> (skipped: Vec<SingularTransformError>)
        requires
            old(self)@.phase == EnginePhase::AtStage(Stage::Skinning),
            model_wf(old(self)@),
            inverses@.len() == old(self)@.skins.len(),
            products@.len() == old(self)@.skins.len(),
            forall|i: int|
                0 <= i < old(self)@.skins.len() && inverses@[i] is Some ==> (
                #[trigger] products@[i])@.len() == old(self)@.skins[i].skin.joints@.len(),
        ensures
            (final(self)@, skipped@) == skinning_transition(
                old(self)@,
                inverses@,
                slots_view(products@),
            ),
            model_wf(final(self)@),
    {
        let skipped = skinning_system(&self.world, inverses, products, &mut self.buffer);
        self.phase = EnginePhase::AtStage(Stage::DebugSync);
        proof {
            let m0 = old(self)@;
            lemma_slot_lengths_preserved(
                m0.skins,
                m0.slots,
                inverses@,
                slots_view(products@),
                m0.skins.len() as int,
            );
            assert forall|i: int| 0 <= i < m0.skins.len() implies {
                &&& (#[trigger] m0.skins[i].skin.id) < self@.slots.len()
                &&& m0.skins[i].skin.joints@.len() <= self@.slots[m0.skins[i].skin.id as int].len()
            } by {
                assert(m0.skins[i].skin.id < m0.slots.len());
            }
        }
        skipped
    }

    /// Run the closing stage: release the image and, on success, hand
    /// back the layer set to submit; the frame is then complete and the
    /// frame counter has advanced by exactly one. A failed release tears
    /// the engine down with the counter unchanged.
    pub fn end_frame(&mut self, release_ok: bool) -> (r: Result<
        FrameSubmission,
        FrameSubmissionError,
    >)
        requires
            old(self)@.phase == EnginePhase::AtStage(Stage::EndFrame),
            model_wf(old(self)@),
            old(self)@.frame_counter < u64::MAX,
        ensures
            (final(self)@, r) == end_transition(old(self)@, release_ok),
            model_wf(final(self)@),
    {
        match self.frame.end_frame(release_ok) {
            Ok(sub) => {
                self.frame_counter = self.frame_counter + 1;
                self.phase = EnginePhase::AtStage(Stage::BeginFrame);
                Ok(sub)
            },
            Err(e) => {
                self.phase = EnginePhase::TornDown;
                Err(e)
            },
        }
    }

    /// Request orderly termination of the session. Whatever the runtime
    /// answers, the engine is torn down: no further frames may be
    /// submitted.
    pub fn end_session(&mut self, runtime_accepted: bool) -> (r: Result<
        (),
        SessionTerminationError,
    >)
        requires
            old(self)@.phase == EnginePhase::AtStage(Stage::BeginFrame),
            model_wf(old(self)@),
        ensures
            (final(self)@, r) == end_session_transition(old(self)@, runtime_accepted),
            model_wf(final(self)@),
    {
        let r = self.session.end(runtime_accepted);
        self.phase = EnginePhase::TornDown;
        r
    }
}

/// Everything the collaborators feed the engine over one frame: the
/// outcome of the opening runtime calls, the propagated world matrices,
/// the skinning answers, the debug publication result, and the image
/// release outcome.
pub struct FrameInputs {
    /// Outcome of the wait/begin/acquire/wait call sequence.
    pub begin: BeginFrameOutcome,
    /// World matrices published by transform propagation.
    pub transforms: Seq<Option<Mat4>>,
    /// Root inverses reported for skinning.
    pub inverses: Seq<Option<Mat4>>,
    /// Computed joint products, per skin.
    pub products: Seq<Seq<Mat4>>,
    /// Whether the debug snapshot was published.
    pub debug_published: bool,
    /// Whether the image release succeeded.
    pub release_ok: bool,
}

/// One whole frame of the pipeline, run from a state that is ready to
/// open a frame: the opening stage, then — only if it succeeded — every
/// later stage in the fixed order through the closing stage. A frame
/// whose opening fails is dropped whole: no later stage of it runs.
pub open spec fn run_frame(m: EngineModel, io: FrameInputs) -> EngineModel {
    let (m1, r1) = begin_transition(m, io.begin);
    if r1 is Err {
        m1
    } else {
        let m2 = stage_done_transition(m1, Stage::Collision);
        let m3 = stage_done_transition(m2, Stage::PhysicsStep);
        let m4 = stage_done_transition(m3, Stage::Gameplay);
        let m5 = stage_done_transition(m4, Stage::RigidBodySync);
        let m6 = propagation_transition(m5, io.transforms);
        let m7 = skinning_transition(m6, io.inverses, io.products).0;
        let m8 = debug_sync_transition(m7, io.debug_published);
        let m9 = stage_done_transition(m8, Stage::Rendering);
        end_transition(m9, io.release_ok).0
    }
}

/// A frame whose runtime answers are all nominal: the opening calls
/// succeed and the image release succeeds.
pub open spec fn frame_nominal(io: FrameInputs) -> bool {
    &&& io.begin matches BeginFrameOutcome::Success { .. }
    &&& io.release_ok
}

/// The engine state after a sequence of whole frames.
pub open spec fn run_frames(m: EngineModel, ios: Seq<FrameInputs>) -> EngineModel
    decreases ios.len(),
{
    if ios.len() == 0 {
        m
    } else {
        run_frames(run_frame(m, ios[0]), ios.drop_first())
    }
}

/// A completed frame advances the frame counter by exactly one: no stage
/// of the pipeline other than the closing stage touches it.
pub proof fn lemma_completed_frame_counts(m: EngineModel, io: FrameInputs)
    requires
        frame_nominal(io),
    ensures
        run_frame(m, io).frame_counter == m.frame_counter + 1,
        run_frame(m, io).phase == EnginePhase::AtStage(Stage::BeginFrame),
{
}

/// Law: across any number of consecutive successful pipeline runs, the
/// frame counter increases by exactly one per frame — after `n` such
/// frames it stands exactly `n` higher, for any `n`, zero included.
pub proof fn lemma_frame_counter_advances(m: EngineModel, ios: Seq<FrameInputs>)
    requires
        forall|k: int| 0 <= k < ios.len() ==> frame_nominal(#[trigger] ios[k]),
    ensures
        run_frames(m, ios).frame_counter == m.frame_counter + ios.len(),
    decreases ios.len(),
{
    if ios.len() > 0 {
        lemma_completed_frame_counts(m, ios[0]);
        lemma_frame_counter_advances(run_frame(m, ios[0]), ios.drop_first());
    }
}

/// Law: a frame whose opening stage fails is dropped whole. The counter
/// does not advance, no stage after the opening one runs — the store and
/// the buffer are exactly as they were — and the closing stage is never
/// reached.
pub proof fn lemma_dropped_frame(m: EngineModel, io: FrameInputs)
    requires
        !(io.begin matches BeginFrameOutcome::Success { .. }),
    ensures
        run_frame(m, io) == begin_transition(m, io.begin).0,
        run_frame(m, io).frame_counter == m.frame_counter,
        run_frame(m, io).transforms == m.transforms,
        run_frame(m, io).slots == m.slots,
        run_frame(m, io).phase != EnginePhase::AtStage(Stage::EndFrame),
{
}

/// Law: the skinning stage only ever reads transforms of its own frame.
/// Whenever a well-formed engine stands at the skinning stage, every
/// transform it can reach — each skeleton root and each joint — carries
/// the tag that this frame's propagation stage wrote, so transform
/// propagation results can never leak across frames.
pub proof fn lemma_skinning_reads_current_frame(m: EngineModel)
    requires
        model_wf(m),
        m.phase == EnginePhase::AtStage(Stage::Skinning),
    ensures
        forall|i: int|
            0 <= i < m.skins.len() ==> transform_of(
                m.transforms,
                (#[trigger] m.skins[i]).entity,
            ).frame == m.frame_counter,
        forall|i: int, n: int|
            0 <= i < m.skins.len() && 0 <= n < m.skins[i].skin.joints@.len() ==> transform_of(
                m.transforms,
                #[trigger] m.skins[i].skin.joints@[n],
            ).frame == m.frame_counter,
{
    assert(past_propagation(m.phase));
    assert forall|i: int| 0 <= i < m.skins.len() implies transform_of(
        m.transforms,
        (#[trigger] m.skins[i]).entity,
    ).frame == m.frame_counter by {
        assert(skin_wf(m.skins[i].skin));
        assert(entity_resolved(m.transforms, m.skins[i].entity));
        assert(m.transforms[m.skins[i].entity as int] is Some);
    }
    assert forall|i: int, n: int|
        0 <= i < m.skins.len() && 0 <= n < m.skins[i].skin.joints@.len() implies transform_of(
        m.transforms,
        #[trigger] m.skins[i].skin.joints@[n],
    ).frame == m.frame_counter by {
        assert(skin_wf(m.skins[i].skin));
        assert(entity_resolved(m.transforms, m.skins[i].skin.joints@[n]));
        assert(m.transforms[m.skins[i].skin.joints@[n] as int] is Some);
    }
}

} // verus!
