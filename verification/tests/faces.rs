use voxel_terrain::face::Face;
use voxel_terrain::quad::Quad;
use voxel_terrain::coord::Coord3DH;
use voxel_terrain::rotation::{Angle, Rotation};

const FACES: [Face; 6] = [Face::Up, Face::Down, Face::Left, Face::Right, Face::Front, Face::Back];

fn times(m: [[i32; 3]; 3], v: [i32; 3]) -> [i32; 3] {
    [
        m[0][0] * v[0] + m[0][1] * v[1] + m[0][2] * v[2],
        m[1][0] * v[0] + m[1][1] * v[1] + m[1][2] * v[2],
        m[2][0] * v[0] + m[2][1] * v[1] + m[2][2] * v[2],
    ]
}

#[test]
fn ordinals_follow_the_declaration() {
    for (i, face) in FACES.iter().enumerate() {
        assert_eq!(face.ordinal(), i);
    }
}

#[test]
fn from_ordinal_inverts_ordinal() {
    for (i, face) in FACES.iter().enumerate() {
        assert_eq!(Face::from_ordinal(i), Some(*face));
    }
    assert_eq!(Face::from_ordinal(6), None);
    assert_eq!(Face::from_ordinal(usize::MAX), None);
}

#[test]
fn normals_are_the_unit_offsets() {
    let want = [(0, 1, 0), (0, -1, 0), (-1, 0, 0), (1, 0, 0), (0, 0, 1), (0, 0, -1)];
    for (face, w) in FACES.iter().zip(want.iter()) {
        let n = face.normal();
        assert_eq!((n.x, n.y, n.z), *w);
    }
}

#[test]
fn orientation_table_in_degrees() {
    let want = [(-90, 0, 0), (90, 0, 0), (0, -90, 0), (0, 90, 0), (0, 0, 0), (0, 180, 0)];
    for (face, w) in FACES.iter().zip(want.iter()) {
        let r = face.rotation();
        assert_eq!((r.roll.degrees(), r.pitch.degrees(), r.yaw.degrees()), *w);
    }
}

#[test]
fn front_is_the_identity() {
    assert_eq!(
        Face::Front.rotation(),
        Rotation { roll: Angle::Zero, pitch: Angle::Zero, yaw: Angle::Zero }
    );
    assert_eq!(Face::Front.rotation().matrix(), [[1, 0, 0], [0, 1, 0], [0, 0, 1]]);
}

#[test]
fn rotation_turns_front_normal_outward() {
    for face in FACES.iter() {
        let n = face.normal();
        assert_eq!(times(face.rotation().matrix(), [0, 0, 1]), [n.x, n.y, n.z]);
    }
    assert_eq!(times(Face::Up.rotation().matrix(), [0, 0, 1]), [0, 1, 0]);
    assert_eq!(times(Face::Back.rotation().matrix(), [0, 0, 1]), [0, 0, -1]);
}

#[test]
fn angle_sine_and_cosine() {
    assert_eq!((Angle::Zero.sin(), Angle::Zero.cos()), (0, 1));
    assert_eq!((Angle::Plus90.sin(), Angle::Plus90.cos()), (1, 0));
    assert_eq!((Angle::Plus180.sin(), Angle::Plus180.cos()), (0, -1));
    assert_eq!((Angle::Minus90.sin(), Angle::Minus90.cos()), (-1, 0));
}

#[test]
fn matrix_of_a_quarter_turn_about_each_axis() {
    let x = Rotation { roll: Angle::Plus90, pitch: Angle::Zero, yaw: Angle::Zero };
    assert_eq!(x.matrix(), [[1, 0, 0], [0, 0, -1], [0, 1, 0]]);
    let y = Rotation { roll: Angle::Zero, pitch: Angle::Plus90, yaw: Angle::Zero };
    assert_eq!(y.matrix(), [[0, 0, 1], [0, 1, 0], [-1, 0, 0]]);
    let z = Rotation { roll: Angle::Zero, pitch: Angle::Zero, yaw: Angle::Plus90 };
    assert_eq!(z.matrix(), [[0, -1, 0], [1, 0, 0], [0, 0, 1]]);
}

#[test]
fn matrix_applies_roll_first_and_yaw_last() {
    let r = Rotation { roll: Angle::Plus90, pitch: Angle::Plus90, yaw: Angle::Plus90 };
    // x -> (about x) x -> (about y) -z -> (about z) -z
    assert_eq!(times(r.matrix(), [1, 0, 0]), [0, 0, -1]);
    // y -> (about x) z -> (about y) x -> (about z) y
    assert_eq!(times(r.matrix(), [0, 1, 0]), [0, 1, 0]);
}

#[test]
fn matrix_agrees_with_nalgebra_for_every_angle() {
    let angles = [Angle::Zero, Angle::Plus90, Angle::Plus180, Angle::Minus90];
    for roll in angles.iter() {
        for pitch in angles.iter() {
            for yaw in angles.iter() {
                let r = Rotation { roll: *roll, pitch: *pitch, yaw: *yaw };
                let exact = r.matrix();
                let float = nalgebra::Rotation3::<f32>::from_euler_angles(
                    (roll.degrees() as f32).to_radians(),
                    (pitch.degrees() as f32).to_radians(),
                    (yaw.degrees() as f32).to_radians(),
                );
                for i in 0..3 {
                    for j in 0..3 {
                        let f: f32 = float.matrix()[(i, j)];
                        assert!((f - exact[i][j] as f32).abs() < 1.0e-6);
                    }
                }
            }
        }
    }
}

#[test]
fn quad_new_takes_rotation_from_facing() {
    for face in FACES.iter() {
        let q = Quad::new(Coord3DH::new(1, 2, 3), *face, 9);
        assert_eq!(q.facing, *face);
        assert_eq!(q.pos, Coord3DH { x: 1, y: 2, z: 3 });
        assert_eq!(q.rot, face.rotation());
        assert_eq!(q.texture_index, 9);
    }
}

#[test]
fn quad_set_texture_index_keeps_the_rest() {
    let mut q = Quad::new(Coord3DH::new(1, 2, 3), Face::Left, 9);
    q.set_texture_index(4);
    assert_eq!(q, Quad { facing: Face::Left, pos: Coord3DH { x: 1, y: 2, z: 3 }, rot: Face::Left.rotation(), texture_index: 4 });
}
