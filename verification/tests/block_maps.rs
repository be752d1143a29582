use voxel_terrain::block_map::BlockMap;
use voxel_terrain::block_vector::BlockVector;
use voxel_terrain::coord::Coord3;
use voxel_terrain::face::Face;
use voxel_terrain::quad::Quad;

fn vector(x: i32, textures: [Option<u32>; 6]) -> BlockVector {
    BlockVector::new(Coord3::new(x, 0, 0), textures)
}

fn sum_of_face_counts(map: &BlockMap) -> usize {
    let mut n = 0;
    for i in 0..map.len() {
        n += map.get(i).get_faces().len();
    }
    n
}

#[test]
fn new_map_is_empty() {
    let map = BlockMap::new();
    assert_eq!(map.len(), 0);
    assert_eq!(map.quad_len(), 0);
    assert_eq!(map.quads().len(), 0);
    assert_eq!(map.iter().count(), 0);
}

#[test]
fn push_appends_in_order() {
    let mut map = BlockMap::new();
    map.push(vector(0, [Some(1), None, None, None, None, None]));
    map.push(vector(1, [Some(2), Some(3), None, None, None, None]));
    map.push(vector(2, [None; 6]));
    assert_eq!(map.len(), 3);
    assert_eq!(map.get(0).get_faces().len(), 1);
    assert_eq!(map.get(1).get_faces().len(), 2);
    assert_eq!(map.get(2).get_faces().len(), 0);
    assert_eq!(map.get(1).get_faces()[1].texture_index, 3);
}

#[test]
fn replace_swaps_one_vector() {
    let mut map = BlockMap::new();
    map.push(vector(0, [Some(1), None, None, None, None, None]));
    map.push(vector(1, [Some(2), Some(3), None, None, None, None]));
    map.replace(vector(7, [None, None, None, None, None, Some(9)]), 0);
    assert_eq!(map.len(), 2);
    assert_eq!(map.get(0).get_faces().len(), 1);
    assert_eq!(map.get(0).get_faces()[0].facing, Face::Back);
    assert_eq!(map.get(0).get_faces()[0].pos.x, 14);
    assert_eq!(map.get(1).get_faces().len(), 2);
    assert_eq!(map.quad_len(), 3);
}

#[test]
fn quad_len_is_the_sum_of_face_counts() {
    let mut map = BlockMap::new();
    assert_eq!(map.quad_len(), sum_of_face_counts(&map));
    map.push(vector(0, [Some(1), None, None, None, None, None]));
    assert_eq!(map.quad_len(), 1);
    map.push(vector(1, [Some(2), Some(3), Some(4), Some(5), Some(6), Some(7)]));
    assert_eq!(map.quad_len(), 7);
    map.push(vector(2, [None; 6]));
    assert_eq!(map.quad_len(), 7);
    assert_eq!(map.quad_len(), sum_of_face_counts(&map));
    map.replace(vector(3, [None; 6]), 1);
    assert_eq!(map.quad_len(), 1);
    assert_eq!(map.quad_len(), sum_of_face_counts(&map));
    assert_eq!(map.quad_len(), map.quads().len());
}

#[test]
fn quads_come_vector_by_vector_then_face_by_face() {
    let mut map = BlockMap::new();
    map.push(vector(0, [None, Some(1), None, Some(2), None, None]));
    map.push(vector(1, [None; 6]));
    map.push(vector(2, [Some(3), None, None, None, None, Some(4)]));
    let quads: Vec<&Quad> = map.quads();
    let got: Vec<(i64, Face, u32)> =
        quads.iter().map(|q| (q.pos.x, q.facing, q.texture_index)).collect();
    assert_eq!(
        got,
        vec![(0, Face::Down, 1), (1, Face::Right, 2), (4, Face::Up, 3), (4, Face::Back, 4)]
    );
}

#[test]
fn iter_walks_the_vectors_in_order() {
    let mut map = BlockMap::new();
    map.push(vector(0, [Some(1), None, None, None, None, None]));
    map.push(vector(1, [Some(2), Some(3), None, None, None, None]));
    let counts: Vec<usize> = map.iter().map(|v| v.get_faces().len()).collect();
    assert_eq!(counts, vec![1, 2]);
}
