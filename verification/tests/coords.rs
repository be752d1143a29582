use voxel_terrain::coord::{index, Coord2, Coord3, Coord3DH, Coord3DI, Indexable, Point};
use voxel_terrain::{CHUNK_HEIGHT, CHUNK_SIZE};

#[test]
fn chunk_dimensions() {
    assert_eq!(CHUNK_SIZE, 16);
    assert_eq!(CHUNK_HEIGHT, 256);
}

#[test]
fn index_of_origin_is_zero() {
    assert_eq!(index(&0i32, &0i32, &0i32), 0);
}

#[test]
fn index_packs_y_then_z_then_x() {
    assert_eq!(index(&1i32, &0i32, &0i32), 1);
    assert_eq!(index(&0i32, &0i32, &1i32), 16);
    assert_eq!(index(&0i32, &1i32, &0i32), 256);
    assert_eq!(index(&3i32, &9i32, &5i32), 9 * 256 + 5 * 16 + 3);
    assert_eq!(index(&15i32, &255i32, &15i32), 65535);
}

#[test]
fn index_one_past_the_top_is_past_the_buffer() {
    assert_eq!(index(&0i32, &256i32, &0i32), 65536);
    assert_eq!(index(&7i32, &256i32, &2i32), 65536 + 2 * 16 + 7);
}

#[test]
fn index_is_unique_inside_the_chunk() {
    let mut seen = vec![false; 65536];
    for y in 0..256i32 {
        for z in 0..16i32 {
            for x in 0..16i32 {
                let i = index(&x, &y, &z);
                assert!(i < 65536);
                assert!(!seen[i]);
                seen[i] = true;
            }
        }
    }
    assert!(seen.iter().all(|s| *s));
}

#[test]
fn index_follows_the_scan_order() {
    let mut next = 0usize;
    for y in 0..256i32 {
        for z in 0..16i32 {
            for x in 0..16i32 {
                assert_eq!(index(&x, &y, &z), next);
                next += 1;
            }
        }
    }
}

#[test]
fn index_of_negative_coordinate_is_out_of_bounds() {
    assert!(index(&-1i32, &0i32, &0i32) >= 65536);
    assert!(index(&0i32, &-1i32, &0i32) >= 65536);
    assert!(index(&0i32, &0i32, &-1i32) >= 65536);
}

#[test]
fn index_of_unsigned_coordinates() {
    assert_eq!(index(&3u32, &9u32, &5u32), 9 * 256 + 5 * 16 + 3);
}

#[test]
fn to_i32_of_signed_is_itself() {
    assert_eq!(Point::to_i32(&-7i32), Some(-7));
    assert_eq!(Point::to_i32(&i32::MAX), Some(i32::MAX));
    assert_eq!(Point::to_i32(&i32::MIN), Some(i32::MIN));
}

#[test]
fn to_i32_of_unsigned_fails_above_i32_max() {
    assert_eq!(Point::to_i32(&7u32), Some(7));
    assert_eq!(Point::to_i32(&2147483647u32), Some(i32::MAX));
    assert_eq!(Point::to_i32(&2147483648u32), None);
    assert_eq!(Point::to_i32(&u32::MAX), None);
}

#[test]
fn coord2_new_keeps_fields() {
    let c = Coord2::new(4i32, -5i32);
    assert_eq!(c.x, 4);
    assert_eq!(c.y, -5);
}

#[test]
fn coord3_new_keeps_fields() {
    let c = Coord3::new(1u32, 2u32, 3u32);
    assert_eq!(c.x, 1);
    assert_eq!(c.y, 2);
    assert_eq!(c.z, 3);
}

#[test]
fn coord3_index_is_index_of_fields() {
    let c: Coord3DI = Coord3::new(3, 9, 5);
    assert_eq!(c.index(), index(&3i32, &9i32, &5i32));
    assert_eq!(c.index(), 2387);
}

#[test]
fn half_coord_new_keeps_fields() {
    let c = Coord3DH::new(2, -3, 4);
    assert_eq!(c, Coord3DH { x: 2, y: -3, z: 4 });
}
