//! Biome generators and the per-chunk biome pass.
use vstd::prelude::*;

use crate::attribute::{biome_of, get_generator_by_atrr, is_finite, Biome};
use crate::chunk::{ChunkKey, Voxel};
use crate::shape::{
    delin3, delinearize3d, lin2, linearize2d, CHUNK_SIZE, CHUNK_VOLUME, PLANE_AREA,
};

verus! {

/// World height of the sea surface.
pub const SEA_LEVEL: i64 = 16;

/// World height from which land counts as mountain.
pub const MOUNTAIN_LEVEL: i64 = 40;

/// World height from which snow lies; the same threshold as mountains.
pub const SNOW_LEVEL: i64 = MOUNTAIN_LEVEL;

/// World height of the cell at buffer index `index` of chunk `key`.
pub open spec fn height_of(key: ChunkKey, index: int) -> int {
    key.y * CHUNK_SIZE as int + delin3(CHUNK_SIZE as int, index).1
}

/// Material that biome `b` lays on a surface cell at world height `height`.
pub open spec fn surface_material(b: Biome, height: int) -> Voxel {
    match b {
        Biome::BasicLand => if height >= SNOW_LEVEL { Voxel::Snow } else { Voxel::Grass },
        Biome::DryLand => if height >= MOUNTAIN_LEVEL { Voxel::Stone } else { Voxel::DrySoil },
        Biome::SnowLand => Voxel::Snow,
        Biome::SandLand => Voxel::Sand,
        Biome::BlueLand => if height < SEA_LEVEL { Voxel::Water } else { Voxel::Sand },
    }
}

/// Buffer after biome `b` worked the surface cell `index`, at local height
/// `y` and world height `height`: the cell gets the biome's material, and
/// sand land also covers the cell below it when that cell is in the chunk.
pub open spec fn land(b: Biome, height: int, index: int, y: int, v: Seq<Voxel>) -> Seq<Voxel> {
    let top = v.update(index, surface_material(b, height));
    if b == Biome::SandLand && y > 0 {
        top.update(index - CHUNK_SIZE as int, Voxel::Sand)
    } else {
        top
    }
}

/// A biome writes only inside its own chunk: the surface cell itself and,
/// for sand land, the cell below it in the same column; every other cell and
/// the buffer's length stay as they were.
pub proof fn lemma_land_confined(b: Biome, height: int, index: int, y: int, v: Seq<Voxel>, j: int)
    requires
        v.len() == CHUNK_VOLUME,
        0 <= index < CHUNK_VOLUME,
        y == delin3(CHUNK_SIZE as int, index).1,
        0 <= j < CHUNK_VOLUME,
        j != index,
        b == Biome::SandLand ==> j != index - CHUNK_SIZE as int,
    ensures
        land(b, height, index, y, v).len() == CHUNK_VOLUME,
        land(b, height, index, y, v)[j] == v[j],
        b == Biome::SandLand && y > 0 ==> 0 <= index - CHUNK_SIZE as int
            && delin3(CHUNK_SIZE as int, index - CHUNK_SIZE as int).0 == delin3(CHUNK_SIZE as int, index).0
            && delin3(CHUNK_SIZE as int, index - CHUNK_SIZE as int).2 == delin3(CHUNK_SIZE as int, index).2,
{
}

/// Field index of the column that holds buffer index `index`.
pub open spec fn column_of(index: int) -> int {
    let p = delin3(CHUNK_SIZE as int, index);
    lin2(CHUNK_SIZE as int, p.0, p.2)
}

/// Buffer after the biome selected by `field` worked surface cell `index`.
pub open spec fn gen_column(key: ChunkKey, field: Seq<u32>, index: int, v: Seq<Voxel>) -> Seq<Voxel> {
    land(
        biome_of(field[column_of(index)]),
        height_of(key, index),
        index,
        delin3(CHUNK_SIZE as int, index).1,
        v,
    )
}

/// Buffer after the surface cells of `surface` were worked, in order.
pub open spec fn generated(key: ChunkKey, field: Seq<u32>, surface: Seq<u32>, v: Seq<Voxel>) -> Seq<Voxel>
    decreases surface.len(),
{
    if surface.len() == 0 {
        v
    } else {
        gen_column(key, field, surface.last() as int, generated(key, field, surface.drop_last(), v))
    }
}

/// World-space rectangle over which a chunk's attribute field is sampled:
/// `[x_min, x_max)` by `[z_min, z_max)`, one unit per column.
#[derive(PartialEq, Eq, Structural, Clone, Copy, Debug)]
pub struct SampleWindow {
    pub x_min: i64,
    pub x_max: i64,
    pub z_min: i64,
    pub z_max: i64,
}

/// The sampling rectangle of chunk `key`: its horizontal footprint in world units.
pub open spec fn window_of(key: ChunkKey) -> SampleWindow {
    SampleWindow {
        x_min: (key.x * CHUNK_SIZE as int) as i64,
        x_max: (key.x * CHUNK_SIZE as int + CHUNK_SIZE as int) as i64,
        z_min: (key.z * CHUNK_SIZE as int) as i64,
        z_max: (key.z * CHUNK_SIZE as int + CHUNK_SIZE as int) as i64,
    }
}

/// World coordinates at which column `(x, z)` of chunk `key` is sampled.
pub open spec fn sample_point(key: ChunkKey, x: int, z: int) -> (int, int) {
    (window_of(key).x_min + x, window_of(key).z_min + z)
}

/// The sampling rectangle of a chunk.
pub fn sample_window(chunk_key: ChunkKey) -> (r: SampleWindow)
    ensures
        r == window_of(chunk_key),
{
    let x_min = chunk_key.x as i64 * 32;
    let z_min = chunk_key.z as i64 * 32;
    SampleWindow { x_min, x_max: x_min + 32, z_min, z_max: z_min + 32 }
}

/// The rectangle that must be sampled before the biome pass over `surface`
/// can run, or `None` when there is no surface cell and nothing to sample.
pub fn noise_request(chunk_key: ChunkKey, surface: &Vec<u32>) -> (r: Option<SampleWindow>)
    ensures
        surface@.len() == 0 ==> r is None,
        surface@.len() > 0 ==> r == Some(window_of(chunk_key)),
{
    if surface.len() == 0 {
        None
    } else {
        Some(sample_window(chunk_key))
    }
}

/// World height of the cell at buffer index `chunk_index` of chunk `chunk_key`.
pub fn surface_height(chunk_key: ChunkKey, chunk_index: u32) -> (r: i64)
    requires
        chunk_index < CHUNK_VOLUME,
    ensures
        r as int == height_of(chunk_key, chunk_index as int),
{
    let (_, y, _) = delinearize3d(chunk_index);
    chunk_key.y as i64 * 32 + y as i64
}

impl Biome {
    /// Lays this biome's material on surface cell `chunk_index`, whose world
    /// height is `height` and whose local coordinates are `xyz`.
    pub fn gen_land_with_info(
        &self,
        chunk_key: ChunkKey,
        voxels: &mut Vec<Voxel>,
        chunk_index: u32,
        plane_index: u32,
        height: i64,
        xyz: (u32, u32, u32),
    )
        requires
            old(voxels)@.len() == CHUNK_VOLUME,
            chunk_index < CHUNK_VOLUME,
            (xyz.0 as int, xyz.1 as int, xyz.2 as int) == delin3(CHUNK_SIZE as int, chunk_index as int),
        ensures
            final(voxels)@ == land(*self, height as int, chunk_index as int, xyz.1 as int, old(voxels)@),
    {
        let material = match self {
            Biome::BasicLand => if height >= SNOW_LEVEL { Voxel::Snow } else { Voxel::Grass },
            Biome::DryLand => if height >= MOUNTAIN_LEVEL { Voxel::Stone } else { Voxel::DrySoil },
            Biome::SnowLand => Voxel::Snow,
            Biome::SandLand => Voxel::Sand,
            Biome::BlueLand => if height < SEA_LEVEL { Voxel::Water } else { Voxel::Sand },
        };
        voxels.set(chunk_index as usize, material);
        if *self == Biome::SandLand && xyz.1 > 0 {
            voxels.set((chunk_index - 32) as usize, Voxel::Sand);
        }
    }

    /// Lays this biome's material on surface cell `chunk_index` of chunk
    /// `chunk_key`, deriving the cell's world height and local coordinates.
    pub fn gen_land(&self, chunk_key: ChunkKey, voxels: &mut Vec<Voxel>, chunk_index: u32, plane_index: u32)
        requires
            old(voxels)@.len() == CHUNK_VOLUME,
            chunk_index < CHUNK_VOLUME,
        ensures
            final(voxels)@ == land(
                *self,
                height_of(chunk_key, chunk_index as int),
                chunk_index as int,
                delin3(CHUNK_SIZE as int, chunk_index as int).1,
                old(voxels)@,
            ),
    {
        let height = surface_height(chunk_key, chunk_index);
        let xyz = delinearize3d(chunk_index);
        self.gen_land_with_info(chunk_key, voxels, chunk_index, plane_index, height, xyz);
    }
}

/// Moves a generator into a box of its own.
pub trait IntoBoxedTerrainGenerator: Sized {
    fn into_boxed_generator(self) -> (r: Box<Self>)
        ensures
            *r == self,
    ;
}

impl IntoBoxedTerrainGenerator for Biome {
    fn into_boxed_generator(self) -> (r: Box<Biome>) {
        Box::new(self)
    }
}

/// Runs the biome pass of chunk `chunk_key` over the surface cells
/// `surface_indices`, with the chunk's attribute field `attributes`: each
/// surface cell is worked by the biome that its column's attribute selects.
pub fn biomes_generate(
    chunk_key: ChunkKey,
    attributes: &Vec<u32>,
    surface_indices: Vec<u32>,
    voxels: &mut Vec<Voxel>,
)
    requires
        old(voxels)@.len() == CHUNK_VOLUME,
        attributes@.len() == PLANE_AREA,
        forall|j: int| 0 <= j < attributes@.len() ==> is_finite(#[trigger] attributes@[j]),
        forall|i: int| 0 <= i < surface_indices@.len() ==> #[trigger] surface_indices@[i] < CHUNK_VOLUME,
    ensures
        final(voxels)@ == generated(chunk_key, attributes@, surface_indices@, old(voxels)@),
        surface_indices@.len() == 0 ==> final(voxels)@ == old(voxels)@,
        final(voxels)@.len() == CHUNK_VOLUME,
{
    if surface_indices.len() == 0 {
        return;
    }
    let ghost start = voxels@;
    let n = surface_indices.len();
    for k in 0..n
        invariant
            n == surface_indices@.len(),
            voxels@.len() == CHUNK_VOLUME,
            attributes@.len() == PLANE_AREA,
            forall|j: int| 0 <= j < attributes@.len() ==> is_finite(#[trigger] attributes@[j]),
            forall|i: int| 0 <= i < surface_indices@.len() ==> #[trigger] surface_indices@[i] < CHUNK_VOLUME,
            voxels@ == generated(chunk_key, attributes@, surface_indices@.subrange(0, k as int), start),
    {
        let index = surface_indices[k];
        let (x, _, z) = delinearize3d(index);
        let index_2d = linearize2d(x, z);
        let atrr = attributes[index_2d as usize];
        let generator = get_generator_by_atrr(atrr);
        generator.gen_land(chunk_key, voxels, index, index_2d);
        assert(surface_indices@.subrange(0, k + 1).drop_last() == surface_indices@.subrange(0, k as int));
    }
    assert(surface_indices@.subrange(0, n as int) == surface_indices@);
}

/// The sampling rectangles of neighbouring chunks meet without gap or
/// overlap along both horizontal axes, so the columns on either side of a
/// shared boundary are sampled one unit apart on one contiguous field.
pub proof fn lemma_adjacent_windows_contiguous(key: ChunkKey, z: int, x: int)
    requires
        key.x < i32::MAX,
        key.z < i32::MAX,
        0 <= x < CHUNK_SIZE,
        0 <= z < CHUNK_SIZE,
    ensures
        window_of(ChunkKey { x: (key.x + 1) as i32, ..key }).x_min == window_of(key).x_max,
        window_of(ChunkKey { z: (key.z + 1) as i32, ..key }).z_min == window_of(key).z_max,
        sample_point(ChunkKey { x: (key.x + 1) as i32, ..key }, 0, z).0
            == sample_point(key, CHUNK_SIZE - 1, z).0 + 1,
        sample_point(ChunkKey { x: (key.x + 1) as i32, ..key }, 0, z).1
            == sample_point(key, CHUNK_SIZE - 1, z).1,
        sample_point(ChunkKey { z: (key.z + 1) as i32, ..key }, x, 0).1
            == sample_point(key, x, CHUNK_SIZE - 1).1 + 1,
        sample_point(ChunkKey { z: (key.z + 1) as i32, ..key }, x, 0).0
            == sample_point(key, x, CHUNK_SIZE - 1).0,
{
}

} // verus!
