use hotham::frame::{BeginFrameOutcome, FrameTiming};
use hotham::mat::Mat4;
use hotham::schedule::{
    stage_kind, standard_schedule, Engine, EnginePhase, Stage, StageKind,
};
use hotham::session::{SessionEvent, SessionState};
use hotham::world::{Skin, SkinEntity, SkinsBuffer, TransformMatrix, World};
use nalgebra::{Matrix4, Vector3};

fn to_mat4(m: &Matrix4<f32>) -> Mat4 {
    let mut e = [0u32; 16];
    for (k, v) in m.as_slice().iter().enumerate() {
        e[k] = v.to_bits();
    }
    Mat4 { e }
}

fn from_mat4(m: &Mat4) -> Matrix4<f32> {
    let mut s = [0f32; 16];
    for k in 0..16 {
        s[k] = f32::from_bits(m.e[k]);
    }
    Matrix4::from_column_slice(&s)
}

/// An engine over a one-skeleton world, with the session already focused.
fn focused_engine() -> Engine {
    let root = Matrix4::new_translation(&Vector3::new(1.0, 0.0, 0.0));
    let joint = Matrix4::new_translation(&Vector3::new(0.0, 1.0, 0.0));
    let world = World {
        transforms: vec![
            Some(TransformMatrix { frame: 0, matrix: to_mat4(&root) }),
            Some(TransformMatrix { frame: 0, matrix: to_mat4(&joint) }),
        ],
        skins: vec![SkinEntity {
            entity: 0,
            skin: Skin {
                id: 0,
                joints: vec![1],
                inverse_bind_matrices: vec![to_mat4(&Matrix4::identity())],
            },
        }],
    };
    let buffer = SkinsBuffer { slots: vec![vec![to_mat4(&Matrix4::zeros())]] };
    let mut engine = Engine::new(world, buffer, 1024, 1024);
    let events = vec![
        SessionEvent::StateChanged(SessionState::Ready),
        SessionEvent::StateChanged(SessionState::Synchronized),
        SessionEvent::StateChanged(SessionState::Focused),
    ];
    engine.poll_events(&events).unwrap();
    engine
}

fn timing(t: i64) -> FrameTiming {
    FrameTiming { predicted_display_time: t, predicted_display_period: 16_666_666, should_render: true }
}

/// Drives one whole nominal frame, recording the stage order the engine
/// demanded.
fn run_nominal_frame(engine: &mut Engine, display_time: i64) -> Vec<Stage> {
    let mut order = Vec::new();
    order.push(engine.next_stage().unwrap());
    engine
        .begin_frame(BeginFrameOutcome::Success { timing: timing(display_time), image_index: 0 })
        .unwrap();
    for stage in [Stage::Collision, Stage::PhysicsStep, Stage::Gameplay, Stage::RigidBodySync] {
        order.push(engine.next_stage().unwrap());
        engine.stage_done(stage);
    }
    order.push(engine.next_stage().unwrap());
    let matrices: Vec<Option<Mat4>> = engine
        .world
        .transforms
        .iter()
        .map(|t| t.as_ref().map(|tm| tm.matrix))
        .collect();
    engine.set_transforms(&matrices);
    order.push(engine.next_stage().unwrap());
    let roots = engine.skin_roots();
    let inverses: Vec<Option<Mat4>> = roots
        .iter()
        .map(|r| from_mat4(r).try_inverse().map(|inv| to_mat4(&inv)))
        .collect();
    let requests = engine.skin_product_requests(&inverses);
    let products: Vec<Vec<Mat4>> = requests
        .iter()
        .map(|rs| {
            rs.iter()
                .map(|q| to_mat4(&(from_mat4(&q.a) * from_mat4(&q.b) * from_mat4(&q.c))))
                .collect()
        })
        .collect();
    let skipped = engine.apply_skinning(&inverses, &products);
    assert!(skipped.is_empty());
    order.push(engine.next_stage().unwrap());
    engine.sync_debug(true);
    order.push(engine.next_stage().unwrap());
    engine.stage_done(Stage::Rendering);
    order.push(engine.next_stage().unwrap());
    let submission = engine.end_frame(true).unwrap();
    assert_eq!(submission.display_time, display_time);
    order
}

#[test]
fn standard_schedule_lists_the_fixed_order() {
    let order = standard_schedule();
    assert_eq!(
        order,
        vec![
            Stage::BeginFrame,
            Stage::Collision,
            Stage::PhysicsStep,
            Stage::Gameplay,
            Stage::RigidBodySync,
            Stage::TransformPropagation,
            Stage::Skinning,
            Stage::DebugSync,
            Stage::Rendering,
            Stage::EndFrame,
        ]
    );
}

#[test]
fn synchronization_points_are_exclusive_stages() {
    for stage in standard_schedule() {
        let expected = match stage {
            Stage::BeginFrame | Stage::PhysicsStep | Stage::DebugSync | Stage::EndFrame => {
                StageKind::Exclusive
            },
            _ => StageKind::Parallel,
        };
        assert_eq!(stage_kind(stage), expected);
    }
}

#[test]
fn engine_demands_the_fixed_stage_order() {
    let mut engine = focused_engine();
    let order = run_nominal_frame(&mut engine, 1);
    assert_eq!(order, standard_schedule());
}

#[test]
fn frame_counter_increases_by_one_per_completed_frame() {
    let mut engine = focused_engine();
    assert_eq!(engine.frame_counter, 0);
    for n in 1..=3u64 {
        run_nominal_frame(&mut engine, n as i64);
        assert_eq!(engine.frame_counter, n);
    }
}

#[test]
fn failed_begin_drops_the_whole_frame() {
    let mut engine = focused_engine();
    let r = engine.begin_frame(BeginFrameOutcome::WaitFailed);
    assert!(r.is_err());
    // the frame is dropped whole: the engine is back at the opening stage
    // and the counter did not advance
    assert_eq!(engine.next_stage(), Some(Stage::BeginFrame));
    assert_eq!(engine.frame_counter, 0);
    // the next frame runs normally
    run_nominal_frame(&mut engine, 5);
    assert_eq!(engine.frame_counter, 1);
}

#[test]
fn stranded_image_tears_the_engine_down() {
    let mut engine = focused_engine();
    let r = engine.begin_frame(BeginFrameOutcome::WaitImageFailed { image_index: 0 });
    assert!(r.is_err());
    assert_eq!(engine.next_stage(), None);
}

#[test]
fn failed_release_tears_the_engine_down() {
    let mut engine = focused_engine();
    engine
        .begin_frame(BeginFrameOutcome::Success { timing: timing(9), image_index: 0 })
        .unwrap();
    for stage in [Stage::Collision, Stage::PhysicsStep, Stage::Gameplay, Stage::RigidBodySync] {
        engine.stage_done(stage);
    }
    let matrices: Vec<Option<Mat4>> = engine
        .world
        .transforms
        .iter()
        .map(|t| t.as_ref().map(|tm| tm.matrix))
        .collect();
    engine.set_transforms(&matrices);
    let inverses = vec![None];
    let products = vec![Vec::new()];
    engine.apply_skinning(&inverses, &products);
    engine.sync_debug(false);
    engine.stage_done(Stage::Rendering);
    let r = engine.end_frame(false);
    assert!(r.is_err());
    assert_eq!(engine.next_stage(), None);
    assert_eq!(engine.frame_counter, 0);
}

#[test]
fn session_loss_during_poll_tears_the_engine_down() {
    let mut engine = focused_engine();
    let r = engine.poll_events(&vec![SessionEvent::InstanceLossPending]);
    assert!(r.is_err());
    assert_eq!(engine.next_stage(), None);
}

#[test]
fn end_session_stops_the_pipeline() {
    let mut engine = focused_engine();
    run_nominal_frame(&mut engine, 2);
    let r = engine.end_session(true);
    assert!(r.is_ok());
    assert!(engine.session.ended);
    assert_eq!(engine.next_stage(), None);
}

#[test]
fn transforms_carry_the_current_frame_tag() {
    let mut engine = focused_engine();
    run_nominal_frame(&mut engine, 1);
    // frame 0's propagation tagged every transform with counter 0
    for t in engine.world.transforms.iter().flatten() {
        assert_eq!(t.frame, 0);
    }
    run_nominal_frame(&mut engine, 2);
    // the next frame's propagation overwrote every tag: nothing of frame
    // 0 is left for frame 1's skinning to read
    for t in engine.world.transforms.iter().flatten() {
        assert_eq!(t.frame, 1);
    }
}
