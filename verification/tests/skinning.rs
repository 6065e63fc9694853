use hotham::mat::Mat4;
use hotham::skinning::{
    skinning_inverse_requests, skinning_product_requests, skinning_system,
};
use hotham::world::{Skin, SkinEntity, SkinsBuffer, TransformMatrix, World};
use nalgebra::{Matrix4, Vector3};

fn to_mat4(m: &Matrix4<f32>) -> Mat4 {
    let mut e = [0u32; 16];
    for (k, v) in m.as_slice().iter().enumerate() {
        e[k] = v.to_bits();
    }
    Mat4 { e }
}

fn from_mat4(m: &Mat4) -> Matrix4<f32> {
    let mut s = [0f32; 16];
    for k in 0..16 {
        s[k] = f32::from_bits(m.e[k]);
    }
    Matrix4::from_column_slice(&s)
}

fn tagged(frame: u64, m: &Matrix4<f32>) -> Option<TransformMatrix> {
    Some(TransformMatrix { frame, matrix: to_mat4(m) })
}

/// Drives the two skinning round trips with nalgebra as the
/// linear-algebra backend, exactly as an embedding application would.
fn run_skinning(world: &World, buffer: &mut SkinsBuffer) -> Vec<usize> {
    let roots = skinning_inverse_requests(world);
    let inverses: Vec<Option<Mat4>> = roots
        .iter()
        .map(|r| from_mat4(r).try_inverse().map(|inv| to_mat4(&inv)))
        .collect();
    let requests = skinning_product_requests(world, &inverses);
    let products: Vec<Vec<Mat4>> = requests
        .iter()
        .map(|skin_requests| {
            skin_requests
                .iter()
                .map(|q| to_mat4(&(from_mat4(&q.a) * from_mat4(&q.b) * from_mat4(&q.c))))
                .collect()
        })
        .collect();
    skinning_system(world, &inverses, &products, buffer)
        .iter()
        .map(|err| err.entity)
        .collect()
}

fn close(a: &Matrix4<f32>, b: &Matrix4<f32>) -> bool {
    a.iter().zip(b.iter()).all(|(x, y)| (x - y).abs() < 1e-5)
}

/// A small reference rig: one skeleton entity (0) with two joints
/// (entities 1 and 2), all with distinct, invertible transforms.
fn reference_world(frame: u64) -> (World, [Matrix4<f32>; 3], [Matrix4<f32>; 2]) {
    let root = Matrix4::new_translation(&Vector3::new(1.0, 2.0, 3.0)) * Matrix4::new_scaling(2.0);
    let joint1 = Matrix4::new_translation(&Vector3::new(0.5, 0.0, 1.0));
    let joint2 = Matrix4::new_translation(&Vector3::new(-1.0, 4.0, 0.25)) * Matrix4::new_scaling(0.5);
    let bind1 = Matrix4::new_translation(&Vector3::new(0.0, -1.0, 0.0));
    let bind2 = Matrix4::new_scaling(4.0);
    let world = World {
        transforms: vec![tagged(frame, &root), tagged(frame, &joint1), tagged(frame, &joint2)],
        skins: vec![SkinEntity {
            entity: 0,
            skin: Skin {
                id: 0,
                joints: vec![1, 2],
                inverse_bind_matrices: vec![to_mat4(&bind1), to_mat4(&bind2)],
            },
        }],
    };
    (world, [root, joint1, joint2], [bind1, bind2])
}

fn empty_slots(count: usize, len: usize) -> SkinsBuffer {
    SkinsBuffer { slots: vec![vec![to_mat4(&Matrix4::zeros()); len]; count] }
}

#[test]
fn skinning_matches_reference_formula() {
    let (world, ts, binds) = reference_world(0);
    let mut buffer = empty_slots(1, 2);
    let skipped = run_skinning(&world, &mut buffer);
    assert!(skipped.is_empty());
    let inv_root = ts[0].try_inverse().unwrap();
    for j in 0..2 {
        let expected = inv_root * ts[j + 1] * binds[j];
        let actual = from_mat4(&buffer.slots[0][j]);
        assert!(close(&expected, &actual), "joint {} skin matrix is wrong", j);
    }
}

#[test]
fn zeroed_joint_transforms_change_every_skin_matrix() {
    let (mut world, _, _) = reference_world(0);
    let mut buffer = empty_slots(1, 2);
    let skipped = run_skinning(&world, &mut buffer);
    assert!(skipped.is_empty());
    let before: Vec<Matrix4<f32>> = buffer.slots[0].iter().map(from_mat4).collect();
    // corrupt every joint's world transform to the zero matrix
    for joint in [1usize, 2] {
        world.transforms[joint] = tagged(0, &Matrix4::zeros());
    }
    let skipped = run_skinning(&world, &mut buffer);
    assert!(skipped.is_empty());
    for (j, old) in before.iter().enumerate() {
        let new = from_mat4(&buffer.slots[0][j]);
        assert!(!close(old, &new), "joint {} kept a stale skin matrix", j);
    }
}

#[test]
fn singular_root_skips_only_its_own_skeleton() {
    // two skeletons: entity 0 owns a singular (zero) root, entity 3 a
    // well-behaved one; they share the world but not their slots
    let root_bad = Matrix4::zeros();
    let root_good = Matrix4::new_translation(&Vector3::new(2.0, 0.0, -1.0));
    let joint_bad = Matrix4::new_scaling(3.0);
    let joint_good = Matrix4::new_translation(&Vector3::new(0.0, 1.0, 0.0));
    let bind = Matrix4::new_scaling(0.25);
    let world = World {
        transforms: vec![
            tagged(0, &root_bad),
            tagged(0, &joint_bad),
            None,
            tagged(0, &root_good),
            tagged(0, &joint_good),
        ],
        skins: vec![
            SkinEntity {
                entity: 0,
                skin: Skin { id: 0, joints: vec![1], inverse_bind_matrices: vec![to_mat4(&bind)] },
            },
            SkinEntity {
                entity: 3,
                skin: Skin { id: 1, joints: vec![4], inverse_bind_matrices: vec![to_mat4(&bind)] },
            },
        ],
    };
    let sentinel = Matrix4::new_scaling(9.0);
    let mut buffer = SkinsBuffer {
        slots: vec![vec![to_mat4(&sentinel)], vec![to_mat4(&sentinel)]],
    };
    let skipped = run_skinning(&world, &mut buffer);
    // only the singular skeleton was skipped, and it is reported
    assert_eq!(skipped, vec![0]);
    // its slot holds exactly what it held before
    assert!(close(&sentinel, &from_mat4(&buffer.slots[0][0])));
    // the sibling skeleton still produced a correct matrix
    let expected = root_good.try_inverse().unwrap() * joint_good * bind;
    assert!(close(&expected, &from_mat4(&buffer.slots[1][0])));
}

#[test]
fn slot_entries_beyond_joint_count_are_kept() {
    let (world, _, _) = reference_world(0);
    let sentinel = Matrix4::new_scaling(7.0);
    let mut buffer = SkinsBuffer {
        slots: vec![vec![
            to_mat4(&Matrix4::zeros()),
            to_mat4(&Matrix4::zeros()),
            to_mat4(&sentinel),
        ]],
    };
    let skipped = run_skinning(&world, &mut buffer);
    assert!(skipped.is_empty());
    assert_eq!(buffer.slots[0].len(), 3);
    assert!(close(&sentinel, &from_mat4(&buffer.slots[0][2])));
}
