use vehicle_scene::controls::{key_action, Direction, KeyAction, Target};
use vehicle_scene::grid::axis_line_vertices;
use vehicle_scene::terrain::{mesh_indices, vertex_grid};
use vehicle_scene::uniforms::pack_matrices;
use vehicle_scene::vehicle::{face_normal_sources, hull_indices, hull_vertices_milli, per_corner, HULL_VERTEX_COUNT};

const BOUND_KEYS: [u32; 18] = [39, 38, 37, 40, 186, 81, 87, 90, 83, 86, 66, 77, 56, 70, 71, 67, 80, 89];

fn act(target: Target, axis: usize, direction: Direction) -> Option<KeyAction> {
    Some(KeyAction { target, axis, direction })
}

#[test]
fn model_rotation_keys() {
    assert_eq!(key_action(39), act(Target::ModelRotation, 1, Direction::Decrease));
    assert_eq!(key_action(38), act(Target::ModelRotation, 0, Direction::Increase));
    assert_eq!(key_action(37), act(Target::ModelRotation, 1, Direction::Increase));
    assert_eq!(key_action(40), act(Target::ModelRotation, 0, Direction::Decrease));
    assert_eq!(key_action(186), act(Target::ModelRotation, 2, Direction::Increase));
    assert_eq!(key_action(81), act(Target::ModelRotation, 2, Direction::Decrease));
}

#[test]
fn camera_rotation_keys() {
    assert_eq!(key_action(87), act(Target::CameraRotation, 0, Direction::Decrease));
    assert_eq!(key_action(90), act(Target::CameraRotation, 0, Direction::Increase));
    assert_eq!(key_action(83), act(Target::CameraRotation, 1, Direction::Increase));
    assert_eq!(key_action(86), act(Target::CameraRotation, 1, Direction::Decrease));
    assert_eq!(key_action(66), act(Target::CameraRotation, 2, Direction::Increase));
    assert_eq!(key_action(77), act(Target::CameraRotation, 2, Direction::Decrease));
}

#[test]
fn model_translation_keys() {
    assert_eq!(key_action(56), act(Target::ModelTranslation, 0, Direction::Decrease));
    assert_eq!(key_action(70), act(Target::ModelTranslation, 1, Direction::Increase));
    assert_eq!(key_action(71), act(Target::ModelTranslation, 0, Direction::Increase));
    assert_eq!(key_action(67), act(Target::ModelTranslation, 1, Direction::Decrease));
    assert_eq!(key_action(80), act(Target::ModelTranslation, 2, Direction::Increase));
    assert_eq!(key_action(89), act(Target::ModelTranslation, 2, Direction::Decrease));
}

#[test]
fn unbound_keys_do_nothing() {
    for code in [0u32, 1, 13, 32, 36, 41, 65, 82, 185, 187, 1000, u32::MAX] {
        assert_eq!(key_action(code), None);
    }
}

#[test]
fn every_key_has_an_opposite() {
    for code in BOUND_KEYS {
        let a = key_action(code).unwrap();
        let flipped = match a.direction {
            Direction::Increase => Direction::Decrease,
            Direction::Decrease => Direction::Increase,
        };
        let opposite = BOUND_KEYS
            .iter()
            .filter(|&&other| key_action(other) == act(a.target, a.axis, flipped))
            .count();
        assert_eq!(opposite, 1);
    }
}

#[test]
fn keys_are_bound_to_distinct_steps() {
    for a in BOUND_KEYS {
        for b in BOUND_KEYS {
            if a != b {
                assert_ne!(key_action(a), key_action(b));
            }
        }
    }
}

fn numbered(base: u32) -> [[u32; 4]; 4] {
    let mut m = [[0u32; 4]; 4];
    for c in 0..4 {
        for r in 0..4 {
            m[c][r] = base + 4 * c as u32 + r as u32;
        }
    }
    m
}

#[test]
fn pack_one_matrix_into_grid_block() {
    let block = pack_matrices(&vec![numbered(100)], 50, 7u32);
    assert_eq!(block.len(), 50);
    for p in 0..16 {
        assert_eq!(block[p], 100 + p as u32);
    }
    assert!(block[16..].iter().all(|&x| x == 7));
}

#[test]
fn pack_three_matrices_into_vehicle_block() {
    let block = pack_matrices(&vec![numbered(0), numbered(1000), numbered(2000)], 200, 0u32);
    assert_eq!(block.len(), 200);
    assert_eq!(block[0], 0);
    assert_eq!(block[4 * 2 + 3], 11);
    assert_eq!(block[16 + 4 * 1 + 0], 1004);
    assert_eq!(block[32 + 15], 2015);
    assert!(block[48..].iter().all(|&x| x == 0));
}

#[test]
fn pack_is_column_major() {
    let mut m = [[0.0f32; 4]; 4];
    m[3][0] = 2.5; // column 3, row 0: a translation entry
    let block = pack_matrices(&vec![m], 16, 0.0f32);
    assert_eq!(block[12], 2.5);
    assert_eq!(block[3], 0.0);
}

#[test]
fn pack_nothing_fills_everything() {
    let block = pack_matrices(&Vec::<[[u8; 4]; 4]>::new(), 5, 9u8);
    assert_eq!(block, vec![9u8; 5]);
}

#[test]
fn terrain_vertex_grid_order() {
    let cells = vertex_grid(3);
    assert_eq!(cells, vec![(0, 0), (0, 1), (0, 2), (1, 0), (1, 1), (1, 2), (2, 0), (2, 1), (2, 2)]);
    assert_eq!(vertex_grid(100).len(), 10000);
    assert_eq!(vertex_grid(100)[100 * 42 + 17], (42, 17));
    assert!(vertex_grid(0).is_empty());
}

#[test]
fn terrain_indices_small_grid() {
    let idx = mesh_indices(3);
    assert_eq!(
        idx,
        vec![
            0, 1, 0, 0, 1, 1, // cell (0, 0)
            1, 2, 3, 3, 4, 2, // cell (0, 1)
            1, 2, 1, 1, 2, 2, // cell (1, 0)
            2, 3, 4, 4, 5, 3, // cell (1, 1)
        ]
    );
}

#[test]
fn terrain_indices_full_size() {
    let idx = mesh_indices(100);
    assert_eq!(idx.len(), 6 * 99 * 99);
    assert!(idx.iter().all(|&k| k < 100 * 100));
    // cell (98, 98), the last one
    assert_eq!(&idx[idx.len() - 6..], &[196, 197, 98 + 98 * 100, 98 + 98 * 100, 99 + 98 * 100, 197]);
    // the two triangles of every cell share an edge
    for cell in idx.chunks(6) {
        assert_eq!(cell[3], cell[2]);
        assert_eq!(cell[5], cell[1]);
    }
}

#[test]
fn terrain_indices_degenerate_grids() {
    assert!(mesh_indices(1).is_empty());
    assert_eq!(mesh_indices(2), vec![0, 1, 0, 0, 1, 1]);
}

#[test]
fn grid_axis_lines() {
    let v = axis_line_vertices();
    assert_eq!(v, vec![(0, 0, -1), (0, 0, 1), (-1, 0, 0), (1, 0, 0), (0, -1, 0), (0, 1, 0)]);
    for line in 0..3 {
        let (a, b) = (v[2 * line], v[2 * line + 1]);
        assert_eq!((a.0 + b.0, a.1 + b.1, a.2 + b.2), (0, 0, 0));
    }
}

#[test]
fn hull_index_list() {
    let idx = hull_indices();
    assert_eq!(idx, vec![0, 1, 2, 3, 4, 1, 3, 2, 5, 6, 0, 1, 6, 0, 2, 6, 4, 1, 6, 2, 5]);
    assert!(idx.iter().all(|&k| 0 <= k && (k as usize) < HULL_VERTEX_COUNT));
}

#[test]
fn hull_normal_sources() {
    let s = face_normal_sources();
    assert_eq!(s, vec![(0, 1), (4, 1), (2, 5), (6, 0), (6, 0), (6, 4), (6, 2)]);
    assert_eq!(s.len() * 3, hull_indices().len());
}

#[test]
fn normals_per_corner() {
    let faces = vec![[1.0f32, 0.0, 0.0], [0.0, 1.0, 0.0]];
    let per = per_corner(&faces, 3);
    assert_eq!(per, vec![faces[0], faces[0], faces[0], faces[1], faces[1], faces[1]]);
    assert!(per_corner(&faces, 0).is_empty());
    assert!(per_corner(&Vec::<u8>::new(), 3).is_empty());
}

#[test]
fn every_step_has_a_key() {
    for target in [Target::ModelRotation, Target::CameraRotation, Target::ModelTranslation] {
        for axis in 0..3 {
            for direction in [Direction::Increase, Direction::Decrease] {
                let bound = BOUND_KEYS.iter().filter(|&&k| key_action(k) == act(target, axis, direction)).count();
                assert_eq!(bound, 1);
            }
        }
    }
}

#[test]
fn normal_sources_lie_on_their_triangle() {
    let idx = hull_indices();
    let s = face_normal_sources();
    for f in 0..7 {
        let tri = &idx[3 * f..3 * f + 3];
        assert!(tri.contains(&(s[f].0 as i32)) && tri.contains(&(s[f].1 as i32)));
        assert_ne!(s[f].0, s[f].1);
    }
}

#[test]
fn packed_slots_do_not_overlap() {
    let block = pack_matrices(&vec![numbered(0), numbered(16), numbered(32)], 48, u32::MAX);
    let expected: Vec<u32> = (0..48).collect();
    assert_eq!(block, expected);
}


#[test]
fn hull_vertices_in_thousandths() {
    let v = hull_vertices_milli();
    assert_eq!(v, vec![(21, 0, 0), (0, 21, 0), (0, -21, 0), (0, 0, 0), (-31, 31, 0), (-31, -31, 0), (0, 0, 11)]);
    assert_eq!(v.len(), HULL_VERTEX_COUNT);
}

#[test]
fn normal_sources_have_nonzero_cross_products() {
    let v = hull_vertices_milli();
    let expected = [(0, 0, 441), (0, 0, -651), (0, 0, -651), (0, 231, 0), (0, 231, 0), (-341, -341, 0), (231, 0, 0)];
    for (f, (a, b)) in face_normal_sources().into_iter().enumerate() {
        let (p, q) = (v[a], v[b]);
        let c = (p.1 * q.2 - p.2 * q.1, p.2 * q.0 - p.0 * q.2, p.0 * q.1 - p.1 * q.0);
        assert_eq!(c, expected[f]);
        assert_ne!(c, (0, 0, 0));
    }
}
