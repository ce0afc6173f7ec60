//! Biome attribute values and the selection of a biome from them.
//!
//! An attribute value is a 32-bit IEEE-754 number carried by its bit
//! pattern. For every value that is not NaN the real order of two values is
//! the order of their `attribute_order` keys: the sign bit negates the
//! magnitude bits, and both zeros get the key 0.
use vstd::prelude::*;

verus! {

/// Bit pattern of the attribute value 0.1, where dry land starts.
pub const DRY_LAND_THRESHOLD: u32 = 0x3DCC_CCCD;

/// Bit pattern of the attribute value 0.4, where snow land starts.
pub const SNOW_LAND_THRESHOLD: u32 = 0x3ECC_CCCD;

/// Bit pattern of the attribute value 0.6, where sand land starts.
pub const SAND_LAND_THRESHOLD: u32 = 0x3F19_999A;

/// Bit pattern of the attribute value 0.8, where blue land starts.
pub const BLUE_LAND_THRESHOLD: u32 = 0x3F4C_CCCD;

/// Magnitude bits shared by both infinities.
pub const INFINITY_MAGNITUDE: u32 = 0x7F80_0000;

/// The closed set of biome variants, each a stateless generator.
#[derive(PartialEq, Eq, Structural, Clone, Copy, Debug, Hash)]
pub enum Biome {
    BasicLand,
    DryLand,
    SnowLand,
    SandLand,
    BlueLand,
}

/// Magnitude bits of an attribute value: its bit pattern without the sign.
pub open spec fn magnitude(bits: u32) -> int {
    bits as int % 0x8000_0000
}

/// Whether the attribute value is finite: neither an infinity nor NaN.
pub open spec fn is_finite(bits: u32) -> bool {
    magnitude(bits) < INFINITY_MAGNITUDE as int
}

/// Integer key whose order is the real order of attribute values.
pub open spec fn attribute_order(bits: u32) -> int {
    if bits >= 0x8000_0000 {
        -magnitude(bits)
    } else {
        magnitude(bits)
    }
}

/// Position of a biome in the ordered list of bands.
pub open spec fn band_rank(b: Biome) -> int {
    match b {
        Biome::BasicLand => 0,
        Biome::DryLand => 1,
        Biome::SnowLand => 2,
        Biome::SandLand => 3,
        Biome::BlueLand => 4,
    }
}

/// The biome of an attribute value: the first half-open band that holds it,
/// over `(-inf, 0.1)`, `[0.1, 0.4)`, `[0.4, 0.6)`, `[0.6, 0.8)`, `[0.8, +inf)`.
pub open spec fn biome_of(bits: u32) -> Biome {
    let k = attribute_order(bits);
    if k < DRY_LAND_THRESHOLD as int {
        Biome::BasicLand
    } else if k < SNOW_LAND_THRESHOLD as int {
        Biome::DryLand
    } else if k < SAND_LAND_THRESHOLD as int {
        Biome::SnowLand
    } else if k < BLUE_LAND_THRESHOLD as int {
        Biome::SandLand
    } else {
        Biome::BlueLand
    }
}

/// Order key of an attribute value, computed.
pub fn attribute_key(bits: u32) -> (r: i64)
    ensures
        r as int == attribute_order(bits),
{
    let m = bits % 0x8000_0000;
    if bits >= 0x8000_0000 {
        -(m as i64)
    } else {
        m as i64
    }
}

/// Whether an attribute value is finite, computed.
pub fn attribute_is_finite(bits: u32) -> (r: bool)
    ensures
        r == is_finite(bits),
{
    bits % 0x8000_0000 < INFINITY_MAGNITUDE
}

/// Selects the biome whose band holds a finite attribute value.
pub fn get_generator_by_atrr(data: u32) -> (r: Biome)
    requires
        is_finite(data),
    ensures
        r == biome_of(data),
{
    let k = attribute_key(data);
    if k < DRY_LAND_THRESHOLD as i64 {
        Biome::BasicLand
    } else if k < SNOW_LAND_THRESHOLD as i64 {
        Biome::DryLand
    } else if k < SAND_LAND_THRESHOLD as i64 {
        Biome::SnowLand
    } else if k < BLUE_LAND_THRESHOLD as i64 {
        Biome::SandLand
    } else {
        Biome::BlueLand
    }
}

/// Selection keeps the order of attribute values: a value that is not
/// smaller than another never selects an earlier band.
pub proof fn lemma_selection_monotone(a: u32, b: u32)
    requires
        attribute_order(a) <= attribute_order(b),
    ensures
        band_rank(biome_of(a)) <= band_rank(biome_of(b)),
{
}

/// Each band is half-open: a value exactly at a threshold selects the band
/// above it, and the value just below the threshold selects the band under it.
pub proof fn lemma_threshold_selects_upper_band()
    ensures
        biome_of(DRY_LAND_THRESHOLD) == Biome::DryLand,
        biome_of(SNOW_LAND_THRESHOLD) == Biome::SnowLand,
        biome_of(SAND_LAND_THRESHOLD) == Biome::SandLand,
        biome_of(BLUE_LAND_THRESHOLD) == Biome::BlueLand,
        biome_of((DRY_LAND_THRESHOLD - 1) as u32) == Biome::BasicLand,
        biome_of((SNOW_LAND_THRESHOLD - 1) as u32) == Biome::DryLand,
        biome_of((SAND_LAND_THRESHOLD - 1) as u32) == Biome::SnowLand,
        biome_of((BLUE_LAND_THRESHOLD - 1) as u32) == Biome::SandLand,
{
}

/// Every finite attribute value selects exactly one band, the one whose
/// bounds hold it.
pub proof fn lemma_selection_total(bits: u32)
    requires
        is_finite(bits),
    ensures
        (biome_of(bits) == Biome::BasicLand) == (attribute_order(bits) < attribute_order(DRY_LAND_THRESHOLD)),
        (biome_of(bits) == Biome::DryLand) == (attribute_order(DRY_LAND_THRESHOLD) <= attribute_order(bits) < attribute_order(SNOW_LAND_THRESHOLD)),
        (biome_of(bits) == Biome::SnowLand) == (attribute_order(SNOW_LAND_THRESHOLD) <= attribute_order(bits) < attribute_order(SAND_LAND_THRESHOLD)),
        (biome_of(bits) == Biome::SandLand) == (attribute_order(SAND_LAND_THRESHOLD) <= attribute_order(bits) < attribute_order(BLUE_LAND_THRESHOLD)),
        (biome_of(bits) == Biome::BlueLand) == (attribute_order(BLUE_LAND_THRESHOLD) <= attribute_order(bits)),
{
}

} // verus!
