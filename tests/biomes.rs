use voxel_biomes::attribute::{
    attribute_is_finite, attribute_key, get_generator_by_atrr, Biome, BLUE_LAND_THRESHOLD,
    DRY_LAND_THRESHOLD, SAND_LAND_THRESHOLD, SNOW_LAND_THRESHOLD,
};
use voxel_biomes::biomes::{
    biomes_generate, noise_request, sample_window, surface_height, IntoBoxedTerrainGenerator,
    SampleWindow,
};
use voxel_biomes::chunk::{ChunkKey, Voxel};
use voxel_biomes::shape::{
    delinearize2d, delinearize3d, linearize2d, linearize3d, CHUNK_VOLUME, PLANE_AREA,
};

fn empty_chunk() -> Vec<Voxel> {
    vec![Voxel::Empty; CHUNK_VOLUME as usize]
}

fn uniform_field(value: f32) -> Vec<u32> {
    vec![value.to_bits(); PLANE_AREA as usize]
}

#[test]
fn linearize3d_round_trip_over_whole_chunk() {
    for i in 0..CHUNK_VOLUME {
        let (x, y, z) = delinearize3d(i);
        assert_eq!(linearize3d(x, y, z), i);
    }
}

#[test]
fn delinearize3d_round_trip_over_whole_chunk() {
    for z in 0..32 {
        for y in 0..32 {
            for x in 0..32 {
                assert_eq!(delinearize3d(linearize3d(x, y, z)), (x, y, z));
            }
        }
    }
}

#[test]
fn linearization_is_x_fastest() {
    assert_eq!(linearize3d(1, 0, 0), 1);
    assert_eq!(linearize3d(0, 1, 0), 32);
    assert_eq!(linearize3d(0, 0, 1), 1024);
    assert_eq!(linearize3d(31, 31, 31), 32767);
    assert_eq!(delinearize3d(1057), (1, 1, 1));
    assert_eq!(linearize2d(1, 0), 1);
    assert_eq!(linearize2d(0, 1), 32);
    assert_eq!(delinearize2d(1023), (31, 31));
}

#[test]
fn plane_round_trip_over_whole_field() {
    for i in 0..PLANE_AREA {
        let (x, z) = delinearize2d(i);
        assert_eq!(linearize2d(x, z), i);
        assert_eq!(delinearize2d(linearize2d(x, z)), (x, z));
    }
}

#[test]
fn thresholds_are_the_documented_values() {
    assert_eq!(DRY_LAND_THRESHOLD, 0.1f32.to_bits());
    assert_eq!(SNOW_LAND_THRESHOLD, 0.4f32.to_bits());
    assert_eq!(SAND_LAND_THRESHOLD, 0.6f32.to_bits());
    assert_eq!(BLUE_LAND_THRESHOLD, 0.8f32.to_bits());
}

#[test]
fn selection_bands_are_half_open() {
    let cases: [(f32, Biome); 14] = [
        (-1.0e30, Biome::BasicLand),
        (-0.5, Biome::BasicLand),
        (-0.0, Biome::BasicLand),
        (0.0, Biome::BasicLand),
        (0.05, Biome::BasicLand),
        (0.099_99, Biome::BasicLand),
        (0.1, Biome::DryLand),
        (0.399_99, Biome::DryLand),
        (0.4, Biome::SnowLand),
        (0.6, Biome::SandLand),
        (0.799_99, Biome::SandLand),
        (0.8, Biome::BlueLand),
        (1.0, Biome::BlueLand),
        (1.0e30, Biome::BlueLand),
    ];
    for (value, expected) in cases {
        assert_eq!(get_generator_by_atrr(value.to_bits()), expected, "value {}", value);
    }
}

#[test]
fn selection_at_f32_neighbours_of_threshold() {
    let below = f32::from_bits(0.1f32.to_bits() - 1);
    assert_eq!(get_generator_by_atrr(below.to_bits()), Biome::BasicLand);
    let above = f32::from_bits(0.1f32.to_bits() + 1);
    assert_eq!(get_generator_by_atrr(above.to_bits()), Biome::DryLand);
}

#[test]
fn attribute_key_follows_float_order() {
    let values: [f32; 7] = [-3.5, -1.0, -0.25, 0.0, 0.25, 1.0, 3.5];
    for a in values {
        for b in values {
            assert_eq!(a < b, attribute_key(a.to_bits()) < attribute_key(b.to_bits()));
        }
    }
    assert_eq!(attribute_key((-0.0f32).to_bits()), 0);
}

#[test]
fn finiteness_of_attributes() {
    assert!(attribute_is_finite(0.5f32.to_bits()));
    assert!(attribute_is_finite(f32::MAX.to_bits()));
    assert!(!attribute_is_finite(f32::INFINITY.to_bits()));
    assert!(!attribute_is_finite(f32::NEG_INFINITY.to_bits()));
    assert!(!attribute_is_finite(f32::NAN.to_bits()));
}

#[test]
fn empty_surface_leaves_buffer_unchanged() {
    let mut voxels = empty_chunk();
    voxels[7] = Voxel::Stone;
    let before = voxels.clone();
    let key = ChunkKey::new(3, -1, 2);
    let surface: Vec<u32> = Vec::new();
    assert_eq!(noise_request(key, &surface), None);
    biomes_generate(key, &uniform_field(0.5), surface, &mut voxels);
    assert_eq!(voxels, before);
}

#[test]
fn single_column_basic_land() {
    let key = ChunkKey::new(0, 0, 0);
    let index = linearize3d(0, 5, 0);
    let mut voxels = empty_chunk();
    assert_eq!(
        noise_request(key, &vec![index]),
        Some(SampleWindow { x_min: 0, x_max: 32, z_min: 0, z_max: 32 })
    );
    biomes_generate(key, &uniform_field(0.05), vec![index], &mut voxels);
    for (i, v) in voxels.iter().enumerate() {
        if i as u32 == index {
            assert_eq!(*v, Voxel::Grass);
        } else {
            assert_eq!(*v, Voxel::Empty);
        }
    }
}

#[test]
fn height_from_chunk_key_and_local_y() {
    let key = ChunkKey::new(0, 2, 0);
    assert_eq!(surface_height(key, linearize3d(0, 3, 0)), 67);
    assert_eq!(surface_height(key, linearize3d(17, 3, 29)), 67);
    assert_eq!(surface_height(ChunkKey::new(0, -1, 0), linearize3d(0, 0, 0)), -32);
}

#[test]
fn neighbouring_windows_are_contiguous() {
    let w0 = sample_window(ChunkKey::new(0, 0, 0));
    let w1 = sample_window(ChunkKey::new(1, 0, 0));
    assert_eq!(w1.x_min, w0.x_max);
    assert_eq!(w1, SampleWindow { x_min: 32, x_max: 64, z_min: 0, z_max: 32 });
    let w2 = sample_window(ChunkKey::new(-2, 5, 1));
    assert_eq!(w2, SampleWindow { x_min: -64, x_max: -32, z_min: 32, z_max: 64 });
    let wmax = sample_window(ChunkKey::new(i32::MAX, 0, i32::MIN));
    assert_eq!(wmax.x_min, i32::MAX as i64 * 32);
    assert_eq!(wmax.z_min, i32::MIN as i64 * 32);
}

#[test]
fn each_biome_lays_its_material() {
    let key = ChunkKey::new(0, 0, 0);
    let low = linearize3d(4, 5, 6);
    let cases: [(Biome, Voxel); 5] = [
        (Biome::BasicLand, Voxel::Grass),
        (Biome::DryLand, Voxel::DrySoil),
        (Biome::SnowLand, Voxel::Snow),
        (Biome::SandLand, Voxel::Sand),
        (Biome::BlueLand, Voxel::Water),
    ];
    for (biome, material) in cases {
        let mut voxels = empty_chunk();
        biome.gen_land(key, &mut voxels, low, linearize2d(4, 6));
        assert_eq!(voxels[low as usize], material);
    }
}

#[test]
fn high_altitude_materials() {
    let key = ChunkKey::new(0, 1, 0);
    let index = linearize3d(2, 10, 3);
    let cases: [(Biome, Voxel); 5] = [
        (Biome::BasicLand, Voxel::Snow),
        (Biome::DryLand, Voxel::Stone),
        (Biome::SnowLand, Voxel::Snow),
        (Biome::SandLand, Voxel::Sand),
        (Biome::BlueLand, Voxel::Sand),
    ];
    for (biome, material) in cases {
        let mut voxels = empty_chunk();
        biome.gen_land(key, &mut voxels, index, linearize2d(2, 3));
        assert_eq!(voxels[index as usize], material);
    }
}

#[test]
fn sand_land_covers_the_cell_below() {
    let key = ChunkKey::new(0, 0, 0);
    let index = linearize3d(3, 7, 9);
    let mut voxels = empty_chunk();
    Biome::SandLand.gen_land(key, &mut voxels, index, linearize2d(3, 9));
    assert_eq!(voxels[index as usize], Voxel::Sand);
    assert_eq!(voxels[linearize3d(3, 6, 9) as usize], Voxel::Sand);
    assert_eq!(voxels.iter().filter(|v| **v != Voxel::Empty).count(), 2);

    let bottom = linearize3d(3, 0, 9);
    let mut voxels = empty_chunk();
    Biome::SandLand.gen_land(key, &mut voxels, bottom, linearize2d(3, 9));
    assert_eq!(voxels.iter().filter(|v| **v != Voxel::Empty).count(), 1);
}

#[test]
fn gen_land_with_info_uses_given_height() {
    let mut voxels = empty_chunk();
    let index = linearize3d(0, 0, 0);
    Biome::BlueLand.gen_land_with_info(ChunkKey::new(0, 0, 0), &mut voxels, index, 0, 16, (0, 0, 0));
    assert_eq!(voxels[0], Voxel::Sand);
    Biome::BlueLand.gen_land_with_info(ChunkKey::new(0, 0, 0), &mut voxels, index, 0, 15, (0, 0, 0));
    assert_eq!(voxels[0], Voxel::Water);
}

#[test]
fn columns_follow_their_own_attribute() {
    let key = ChunkKey::new(1, 0, -1);
    let mut field = uniform_field(0.05);
    field[linearize2d(1, 0) as usize] = 0.3f32.to_bits();
    field[linearize2d(2, 0) as usize] = 0.5f32.to_bits();
    field[linearize2d(3, 0) as usize] = 0.7f32.to_bits();
    field[linearize2d(4, 0) as usize] = 0.9f32.to_bits();
    let surface: Vec<u32> = (0..5).map(|x| linearize3d(x, 5, 0)).collect();
    let mut voxels = empty_chunk();
    biomes_generate(key, &field, surface, &mut voxels);
    assert_eq!(voxels[linearize3d(0, 5, 0) as usize], Voxel::Grass);
    assert_eq!(voxels[linearize3d(1, 5, 0) as usize], Voxel::DrySoil);
    assert_eq!(voxels[linearize3d(2, 5, 0) as usize], Voxel::Snow);
    assert_eq!(voxels[linearize3d(3, 5, 0) as usize], Voxel::Sand);
    assert_eq!(voxels[linearize3d(3, 4, 0) as usize], Voxel::Sand);
    assert_eq!(voxels[linearize3d(4, 5, 0) as usize], Voxel::Water);
    assert_eq!(voxels.iter().filter(|v| **v != Voxel::Empty).count(), 6);
}

#[test]
fn boxed_generator_keeps_variant() {
    let boxed = Biome::SnowLand.into_boxed_generator();
    assert_eq!(*boxed, Biome::SnowLand);
}
