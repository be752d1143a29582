use voxel_terrain::block::Block;
use voxel_terrain::coord::{Coord3, Coord3DH};
use voxel_terrain::face::Face;
use voxel_terrain::material::{Material, DIRT_TEXTURES, GRASS_TEXTURES};

const FACES: [Face; 6] = [Face::Up, Face::Down, Face::Left, Face::Right, Face::Front, Face::Back];

#[test]
fn get_texture_reads_by_ordinal() {
    let m = Material::new([10, 11, 12, 13, 14, 15]);
    for (i, face) in FACES.iter().enumerate() {
        assert_eq!(m.get_texture(*face), 10 + i as u32);
    }
}

#[test]
fn grass_has_top_bottom_and_side_textures() {
    assert_eq!(GRASS_TEXTURES, [1, 2, 0, 0, 0, 0]);
    let g = Material::grass();
    assert_eq!(g, Material::new([1, 2, 0, 0, 0, 0]));
    assert_eq!(g.get_texture(Face::Up), 1);
    assert_eq!(g.get_texture(Face::Down), 2);
    assert_eq!(g.get_texture(Face::Left), 0);
    assert_eq!(g.get_texture(Face::Right), 0);
    assert_eq!(g.get_texture(Face::Front), 0);
    assert_eq!(g.get_texture(Face::Back), 0);
}

#[test]
fn dirt_is_uniform() {
    assert_eq!(DIRT_TEXTURES, [2, 2, 2, 2, 2, 2]);
    let d = Material::dirt();
    assert_eq!(d, Material::new([2; 6]));
    for face in FACES.iter() {
        assert_eq!(d.get_texture(*face), 2);
    }
    assert_ne!(d, Material::grass());
}

#[test]
fn to_vector_with_all_faces() {
    let v = Material::grass().to_vector(Coord3::new(1, 2, 3), [true; 6]);
    let q = v.get_faces();
    assert_eq!(q.len(), 6);
    let want = [1, 2, 0, 0, 0, 0];
    for i in 0..6 {
        assert_eq!(q[i].facing, FACES[i]);
        assert_eq!(q[i].texture_index, want[i]);
    }
    assert_eq!(q[0].pos, Coord3DH { x: 2, y: 5, z: 6 });
}

#[test]
fn to_vector_with_a_mask() {
    let m = Material::new([10, 11, 12, 13, 14, 15]);
    let v = m.to_vector(Coord3::new(0, 0, 0), [false, true, false, true, false, true]);
    let q = v.get_faces();
    assert_eq!(q.len(), 3);
    assert_eq!((q[0].facing, q[0].texture_index), (Face::Down, 11));
    assert_eq!((q[1].facing, q[1].texture_index), (Face::Right, 13));
    assert_eq!((q[2].facing, q[2].texture_index), (Face::Back, 15));
}

#[test]
fn to_vector_with_no_face() {
    let v = Material::dirt().to_vector(Coord3::new(0, 0, 0), [false; 6]);
    assert_eq!(v.get_faces().len(), 0);
}

#[test]
fn block_to_vector_is_its_materials() {
    let b = Block { pos: Coord3::new(1, 2, 3), material: Material::grass() };
    let v = b.to_vector([true, false, false, false, true, false]);
    let w = Material::grass().to_vector(Coord3::new(1, 2, 3), [true, false, false, false, true, false]);
    assert_eq!(v.get_faces(), w.get_faces());
    assert_eq!(v.get_faces().len(), 2);
    assert_eq!(v.get_faces()[1].pos, Coord3DH { x: 2, y: 4, z: 7 });
}
