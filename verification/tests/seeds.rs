use voxel_terrain::seed::Seed;

#[test]
fn seed_keeps_its_number() {
    assert_eq!(Seed::new(0).get(), 0);
    assert_eq!(Seed::new(42).get(), 42);
    assert_eq!(Seed::new(u32::MAX).get(), u32::MAX);
}

#[test]
fn random_seeds_differ() {
    let seeds: Vec<u32> = (0..64).map(|_| Seed::random().get()).collect();
    assert!(seeds.iter().any(|s| *s != seeds[0]));
}
