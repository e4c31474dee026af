use isosurface::{is_inside, DensityMap, GridPoint, MAX_N, N};

#[test]
fn only_strictly_positive_samples_are_inside() {
    assert!(is_inside(1.0f32.to_bits()));
    assert!(is_inside(f32::MIN_POSITIVE.to_bits()));
    assert!(is_inside(f32::from_bits(1).to_bits()));
    assert!(is_inside(f32::MAX.to_bits()));
    assert!(is_inside(f32::INFINITY.to_bits()));
    assert!(!is_inside(0.0f32.to_bits()));
    assert!(!is_inside((-0.0f32).to_bits()));
    assert!(!is_inside((-1.0f32).to_bits()));
    assert!(!is_inside(f32::NEG_INFINITY.to_bits()));
    assert!(!is_inside(f32::NAN.to_bits()));
    assert!(!is_inside((-f32::NAN).to_bits()));
}

#[test]
fn inside_test_agrees_with_the_float_comparison() {
    let mut bits: u32 = 0;
    loop {
        for probe in [bits, bits.wrapping_sub(1), bits.wrapping_add(1)] {
            assert_eq!(is_inside(probe), f32::from_bits(probe) > 0.0, "bits {probe:#x}");
        }
        match bits.checked_add(0x0001_0001) {
            Some(next) => bits = next,
            None => break,
        }
    }
    for probe in [0x7f80_0000u32, 0x7f80_0001, 0x7fff_ffff, 0x8000_0000, 0xffff_ffff, 0xff80_0000] {
        assert_eq!(is_inside(probe), f32::from_bits(probe) > 0.0);
    }
}

#[test]
fn default_field_has_n_cells_and_is_all_zero() {
    let map = DensityMap::default();
    assert_eq!(N, 5);
    assert_eq!(map.n(), N);
    for x in 0..=N as u32 {
        for y in 0..=N as u32 {
            for z in 0..=N as u32 {
                assert_eq!(map.index(GridPoint { x, y, z }), 0);
            }
        }
    }
}

#[test]
fn new_field_is_all_zero() {
    let map = DensityMap::new(2);
    assert_eq!(map.n(), 2);
    for x in 0..=2 {
        for y in 0..=2 {
            for z in 0..=2 {
                assert_eq!(f32::from_bits(map.index(GridPoint { x, y, z })), 0.0);
            }
        }
    }
}

#[test]
fn smallest_field_is_a_single_point() {
    let mut map = DensityMap::new(0);
    assert_eq!(map.n(), 0);
    *map.index_mut(GridPoint { x: 0, y: 0, z: 0 }) = 2.5f32.to_bits();
    assert_eq!(f32::from_bits(map.index(GridPoint { x: 0, y: 0, z: 0 })), 2.5);
}

#[test]
fn set_changes_one_sample_only() {
    let mut map = DensityMap::new(3);
    let mut value = 1.0f32;
    for x in 0..=3 {
        for y in 0..=3 {
            for z in 0..=3 {
                *map.index_mut(GridPoint { x, y, z }) = value.to_bits();
                value += 1.0;
            }
        }
    }
    let mut expected = 1.0f32;
    for x in 0..=3 {
        for y in 0..=3 {
            for z in 0..=3 {
                assert_eq!(f32::from_bits(map.index(GridPoint { x, y, z })), expected);
                expected += 1.0;
            }
        }
    }
    *map.index_mut(GridPoint { x: 1, y: 2, z: 3 }) = (-7.0f32).to_bits();
    assert_eq!(f32::from_bits(map.index(GridPoint { x: 1, y: 2, z: 3 })), -7.0);
    assert_eq!(f32::from_bits(map.index(GridPoint { x: 1, y: 2, z: 2 })), 27.0);
    assert_eq!(f32::from_bits(map.index(GridPoint { x: 1, y: 3, z: 0 })), 29.0);
    assert_eq!(f32::from_bits(map.index(GridPoint { x: 3, y: 2, z: 1 })), 58.0);
}

#[test]
fn largest_resolution_is_where_the_index_count_still_fits() {
    let fits = |n: u64| 3 * n * n * n <= u32::MAX as u64;
    assert!(fits(MAX_N as u64));
    assert!(!fits(MAX_N as u64 + 1));
}
