use voxel_terrain::block_vector::BlockVector;
use voxel_terrain::coord::{Coord3, Coord3DH};
use voxel_terrain::face::Face;
use voxel_terrain::quad::Quad;
use voxel_terrain::rotation::{Angle, Rotation};

const FACES: [Face; 6] = [Face::Up, Face::Down, Face::Left, Face::Right, Face::Front, Face::Back];

fn facings(v: &BlockVector) -> Vec<Face> {
    v.get_faces().iter().map(|q| q.facing).collect()
}

fn no_facing_twice(v: &BlockVector) -> bool {
    let f = facings(v);
    for i in 0..f.len() {
        for j in (i + 1)..f.len() {
            if f[i] == f[j] {
                return false;
            }
        }
    }
    f.len() <= 6
}

#[test]
fn new_with_no_textures_is_empty() {
    let v = BlockVector::new(Coord3::new(1, 2, 3), [None; 6]);
    assert_eq!(v.get_faces().len(), 0);
}

#[test]
fn new_with_all_textures_has_six_quads_in_face_order() {
    let v = BlockVector::new(
        Coord3::new(1, 2, 3),
        [Some(10), Some(11), Some(12), Some(13), Some(14), Some(15)],
    );
    assert_eq!(facings(&v), FACES.to_vec());
    let textures: Vec<u32> = v.get_faces().iter().map(|q| q.texture_index).collect();
    assert_eq!(textures, vec![10, 11, 12, 13, 14, 15]);
}

#[test]
fn new_places_each_quad_half_a_block_from_the_centre() {
    let v = BlockVector::new(
        Coord3::new(1, 2, 3),
        [Some(0), Some(0), Some(0), Some(0), Some(0), Some(0)],
    );
    let want = [(2, 5, 6), (2, 3, 6), (1, 4, 6), (3, 4, 6), (2, 4, 7), (2, 4, 5)];
    for (q, w) in v.get_faces().iter().zip(want.iter()) {
        assert_eq!((q.pos.x, q.pos.y, q.pos.z), *w);
        assert_eq!(q.rot, q.facing.rotation());
    }
}

#[test]
fn new_at_the_ends_of_the_coordinate_range() {
    let v = BlockVector::new(
        Coord3::new(i32::MAX, i32::MIN, 0),
        [Some(0), Some(0), None, Some(0), None, None],
    );
    let q = v.get_faces();
    assert_eq!(q.len(), 3);
    assert_eq!(q[0].pos, Coord3DH { x: 4294967294, y: -4294967295, z: 0 });
    assert_eq!(q[1].pos, Coord3DH { x: 4294967294, y: -4294967297, z: 0 });
    assert_eq!(q[2].pos, Coord3DH { x: 4294967295, y: -4294967296, z: 0 });
}

#[test]
fn new_skips_faces_without_texture() {
    let v = BlockVector::new(Coord3::new(0, 0, 0), [None, Some(5), None, None, Some(6), None]);
    assert_eq!(facings(&v), vec![Face::Down, Face::Front]);
    assert_eq!(v.get_faces()[0].texture_index, 5);
    assert_eq!(v.get_faces()[1].texture_index, 6);
}

#[test]
fn set_face_none_removes_exactly_that_quad() {
    let mut v = BlockVector::new(
        Coord3::new(0, 0, 0),
        [Some(1), Some(2), Some(3), Some(4), Some(5), Some(6)],
    );
    let before = v.get_faces().len();
    v.set_face(Face::Up, None);
    assert_eq!(v.get_faces().len(), before - 1);
    assert_eq!(facings(&v), vec![Face::Down, Face::Left, Face::Right, Face::Front, Face::Back]);
    let textures: Vec<u32> = v.get_faces().iter().map(|q| q.texture_index).collect();
    assert_eq!(textures, vec![2, 3, 4, 5, 6]);
    v.set_face(Face::Up, None);
    assert_eq!(v.get_faces().len(), before - 1);
    assert_eq!(facings(&v), vec![Face::Down, Face::Left, Face::Right, Face::Front, Face::Back]);
}

#[test]
fn set_face_some_appends_a_missing_face() {
    let mut v = BlockVector::new(Coord3::new(0, 0, 0), [Some(1), None, None, None, None, None]);
    v.set_face(Face::Front, Some(7));
    assert_eq!(v.get_faces().len(), 2);
    let q = v.get_faces()[1];
    assert_eq!(q.facing, Face::Front);
    assert_eq!(q.texture_index, 7);
    assert_eq!(q.rot, Rotation { roll: Angle::Zero, pitch: Angle::Zero, yaw: Angle::Zero });
    assert_eq!(q.rot.matrix(), [[1, 0, 0], [0, 1, 0], [0, 0, 1]]);
    assert_eq!(q.pos, Coord3DH { x: 0, y: 0, z: 1 });
}

#[test]
fn set_face_some_rewrites_an_existing_face_in_place() {
    let mut v = BlockVector::new(
        Coord3::new(4, 5, 6),
        [Some(1), Some(2), Some(3), None, None, None],
    );
    let before: Vec<Quad> = v.get_faces().clone();
    v.set_face(Face::Down, Some(9));
    let after = v.get_faces();
    assert_eq!(after.len(), 3);
    assert_eq!(after[0], before[0]);
    assert_eq!(after[2], before[2]);
    assert_eq!(after[1].texture_index, 9);
    assert_eq!(after[1].facing, before[1].facing);
    assert_eq!(after[1].pos, before[1].pos);
    assert_eq!(after[1].rot, before[1].rot);
}

#[test]
fn set_face_none_on_empty_vector_is_a_no_op() {
    let mut v = BlockVector::new(Coord3::new(0, 0, 0), [None; 6]);
    v.set_face(Face::Left, None);
    assert_eq!(v.get_faces().len(), 0);
}

#[test]
fn removed_face_comes_back_at_the_end() {
    let mut v = BlockVector::new(
        Coord3::new(0, 0, 0),
        [Some(1), Some(2), Some(3), Some(4), Some(5), Some(6)],
    );
    v.set_face(Face::Left, None);
    v.set_face(Face::Left, Some(8));
    assert_eq!(
        facings(&v),
        vec![Face::Up, Face::Down, Face::Right, Face::Front, Face::Back, Face::Left]
    );
    assert_eq!(v.get_faces()[5].texture_index, 8);
    assert_eq!(v.get_faces()[5].pos, Coord3DH { x: -1, y: 0, z: 0 });
}

#[test]
fn no_facing_occurs_twice_after_any_sequence_of_set_face() {
    let mut v = BlockVector::new(Coord3::new(2, 3, 4), [None, Some(1), None, Some(2), None, None]);
    assert!(no_facing_twice(&v));
    let mut state: u32 = 12345;
    for _ in 0..2000 {
        state = state.wrapping_mul(1664525).wrapping_add(1013904223);
        let face = FACES[((state >> 8) % 6) as usize];
        let texture = if (state >> 16) % 3 == 0 { None } else { Some((state >> 20) % 3) };
        let had = facings(&v).contains(&face);
        let len = v.get_faces().len();
        v.set_face(face, texture);
        assert!(no_facing_twice(&v));
        match texture {
            Some(t) => {
                assert_eq!(v.get_faces().len(), if had { len } else { len + 1 });
                let q = v.get_faces().iter().find(|q| q.facing == face).unwrap();
                assert_eq!(q.texture_index, t);
                assert_eq!(q.rot, face.rotation());
            }
            None => {
                assert_eq!(v.get_faces().len(), if had { len - 1 } else { len });
                assert!(!facings(&v).contains(&face));
            }
        }
    }
}
