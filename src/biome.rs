//! The biome ladder: each height falls to the first rung whose guard it meets.

use crate::binary64::{is_finite, lemma_order_key_follows_value, order_key, Binary64};
use vstd::prelude::*;

verus! {

/// Bit pattern of 0.7, the snow line.
pub const SNOW_LINE: u64 = 0x3fe6_6666_6666_6666;

/// Bit pattern of 0.6.
pub const HIGH_ROCK_LINE: u64 = 0x3fe3_3333_3333_3333;

/// Bit pattern of 0.5.
pub const ROCK_LINE: u64 = 0x3fe0_0000_0000_0000;

/// Bit pattern of 0.25.
pub const FOREST_LINE: u64 = 0x3fd0_0000_0000_0000;

/// Bit pattern of 0.0, the coastline.
pub const SEA_LEVEL: u64 = 0;

/// Bit pattern of -0.05.
pub const SHORE_LINE: u64 = 0xbfa9_9999_9999_999a;

/// Bit pattern of -0.15.
pub const SHALLOW_LINE: u64 = 0xbfc3_3333_3333_3333;

#[derive(Clone, Copy, Debug, PartialEq, Eq, Structural)]
pub enum Biome {
    Snow,
    HighRock,
    Rock,
    Forest,
    Grassland,
    Shore,
    ShallowWater,
    DeepWater,
}

pub open spec fn line(bits: u64) -> int {
    Binary64 { bits }.value()
}

/// The ladder, rung by rung as it is evaluated: the first guard met wins.
/// A non-finite height meets no guard.
pub open spec fn biome_of(h: Binary64) -> Biome {
    let v = h.value();
    if !h.finite() {
        Biome::DeepWater
    } else if v > line(SNOW_LINE) {
        Biome::Snow
    } else if v <= line(SNOW_LINE) && v > line(HIGH_ROCK_LINE) {
        Biome::HighRock
    } else if v <= line(HIGH_ROCK_LINE) && v > line(ROCK_LINE) {
        Biome::Rock
    } else if v <= line(ROCK_LINE) && v > line(FOREST_LINE) {
        Biome::Forest
    } else if v <= line(FOREST_LINE) && v > line(SEA_LEVEL) {
        Biome::Grassland
    } else if v <= line(SEA_LEVEL) && v > line(SHORE_LINE) {
        Biome::Shore
    } else if v >= line(SHALLOW_LINE) {
        Biome::ShallowWater
    } else {
        Biome::DeepWater
    }
}

pub open spec fn color_of(b: Biome) -> Seq<u8> {
    match b {
        Biome::Snow => seq![255u8, 255u8, 255u8],
        Biome::HighRock => seq![169u8, 169u8, 169u8],
        Biome::Rock => seq![127u8, 131u8, 134u8],
        Biome::Forest => seq![34u8, 139u8, 34u8],
        Biome::Grassland => seq![98u8, 125u8, 75u8],
        Biome::Shore => seq![194u8, 178u8, 128u8],
        Biome::ShallowWater => seq![173u8, 216u8, 230u8],
        Biome::DeepWater => seq![0u8, 0u8, 128u8],
    }
}

impl Biome {
    pub fn color(&self) -> (r: [u8; 3])
        ensures
            r@ == color_of(*self),
    {
        let r: [u8; 3] = match self {
            Biome::Snow => [255, 255, 255],
            Biome::HighRock => [169, 169, 169],
            Biome::Rock => [127, 131, 134],
            Biome::Forest => [34, 139, 34],
            Biome::Grassland => [98, 125, 75],
            Biome::Shore => [194, 178, 128],
            Biome::ShallowWater => [173, 216, 230],
            Biome::DeepWater => [0, 0, 128],
        };
        assert(r@ =~= color_of(*self));
        r
    }
}

/// The thresholds are finite and strictly decreasing down the ladder.
pub proof fn lemma_lines_descend()
    ensures
        is_finite(SNOW_LINE),
        is_finite(HIGH_ROCK_LINE),
        is_finite(ROCK_LINE),
        is_finite(FOREST_LINE),
        is_finite(SEA_LEVEL),
        is_finite(SHORE_LINE),
        is_finite(SHALLOW_LINE),
        line(SNOW_LINE) > line(HIGH_ROCK_LINE),
        line(HIGH_ROCK_LINE) > line(ROCK_LINE),
        line(ROCK_LINE) > line(FOREST_LINE),
        line(FOREST_LINE) > line(SEA_LEVEL),
        line(SEA_LEVEL) > line(SHORE_LINE),
        line(SHORE_LINE) > line(SHALLOW_LINE),
{
    assert(order_key(SNOW_LINE) > order_key(HIGH_ROCK_LINE));
    assert(order_key(HIGH_ROCK_LINE) > order_key(ROCK_LINE));
    assert(order_key(ROCK_LINE) > order_key(FOREST_LINE));
    assert(order_key(FOREST_LINE) > order_key(SEA_LEVEL));
    assert(order_key(SEA_LEVEL) > order_key(SHORE_LINE));
    assert(order_key(SHORE_LINE) > order_key(SHALLOW_LINE));
    lemma_order_key_follows_value(HIGH_ROCK_LINE, SNOW_LINE);
    lemma_order_key_follows_value(ROCK_LINE, HIGH_ROCK_LINE);
    lemma_order_key_follows_value(FOREST_LINE, ROCK_LINE);
    lemma_order_key_follows_value(SEA_LEVEL, FOREST_LINE);
    lemma_order_key_follows_value(SHORE_LINE, SEA_LEVEL);
    lemma_order_key_follows_value(SHALLOW_LINE, SHORE_LINE);
}

/// Every finite height lands in exactly one band, and the bands are the
/// intervals between consecutive thresholds; the shallow-water guard, which
/// also covers the shore band, only ever sees heights at or below -0.05.
pub proof fn lemma_ladder_bands(h: Binary64)
    requires
        h.finite(),
    ensures
        (biome_of(h) == Biome::Snow) == (h.value() > line(SNOW_LINE)),
        (biome_of(h) == Biome::HighRock) == (line(HIGH_ROCK_LINE) < h.value() <= line(SNOW_LINE)),
        (biome_of(h) == Biome::Rock) == (line(ROCK_LINE) < h.value() <= line(HIGH_ROCK_LINE)),
        (biome_of(h) == Biome::Forest) == (line(FOREST_LINE) < h.value() <= line(ROCK_LINE)),
        (biome_of(h) == Biome::Grassland) == (line(SEA_LEVEL) < h.value() <= line(FOREST_LINE)),
        (biome_of(h) == Biome::Shore) == (line(SHORE_LINE) < h.value() <= line(SEA_LEVEL)),
        (biome_of(h) == Biome::ShallowWater) == (line(SHALLOW_LINE) <= h.value() <= line(SHORE_LINE)),
        (biome_of(h) == Biome::DeepWater) == (h.value() < line(SHALLOW_LINE)),
{
    lemma_lines_descend();
}

/// A height of exactly 0.7 is not above the snow line: it is high rock.
pub proof fn lemma_snow_line_is_high_rock()
    ensures
        biome_of(Binary64 { bits: SNOW_LINE }) == Biome::HighRock,
{
    lemma_lines_descend();
}

/// The biome of one height, by the ladder.
pub fn classify(height: Binary64) -> (r: Biome)
    ensures
        r == biome_of(height),
{
    proof {
        lemma_lines_descend();
    }
    if !height.is_finite() {
        return Biome::DeepWater;
    }
    let snow = Binary64::from_bits(SNOW_LINE);
    let high_rock = Binary64::from_bits(HIGH_ROCK_LINE);
    let rock = Binary64::from_bits(ROCK_LINE);
    let forest = Binary64::from_bits(FOREST_LINE);
    let sea = Binary64::from_bits(SEA_LEVEL);
    let shore = Binary64::from_bits(SHORE_LINE);
    let shallow = Binary64::from_bits(SHALLOW_LINE);
    if height.greater_than(&snow) {
        Biome::Snow
    } else if !height.greater_than(&snow) && height.greater_than(&high_rock) {
        Biome::HighRock
    } else if !height.greater_than(&high_rock) && height.greater_than(&rock) {
        Biome::Rock
    } else if !height.greater_than(&rock) && height.greater_than(&forest) {
        Biome::Forest
    } else if !height.greater_than(&forest) && height.greater_than(&sea) {
        Biome::Grassland
    } else if !height.greater_than(&sea) && height.greater_than(&shore) {
        Biome::Shore
    } else if height.at_least(&shallow) {
        Biome::ShallowWater
    } else {
        Biome::DeepWater
    }
}

} // verus!
