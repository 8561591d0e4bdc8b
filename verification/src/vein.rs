//! The vein-type catalog: two fixed ore veins (copper and iron), each a
//! vertical band of the world with an ore block, a raw-ore block and a host
//! stone, plus the global vertical bounds derived from them.
use vstd::prelude::*;

verus! {

/// The six block kinds the two veins can place. A value stands for the
/// default state of the named block; equality of kinds is equality of the
/// block states they stand for.
#[derive(Clone, Copy, Debug, PartialEq, Eq, Structural)]
pub enum BlockKind {
    CopperOre,
    RawCopperBlock,
    Granite,
    DeepslateIronOre,
    RawIronBlock,
    Tuff,
}

/// One vein: its three blocks and the inclusive vertical band
/// `min_y ..= max_y` within which it may place them.
#[derive(Clone, Copy, Debug, PartialEq, Eq, Structural)]
pub struct VeinType {
    pub ore: BlockKind,
    pub raw_ore: BlockKind,
    pub stone: BlockKind,
    pub min_y: i32,
    pub max_y: i32,
}

/// Lowest y of any vein band (the iron vein's floor).
pub const MIN_Y: i32 = -60;

/// Highest y of any vein band (the copper vein's ceiling).
pub const MAX_Y: i32 = 50;

/// The copper vein: copper ore, raw copper and granite between y 0 and 50.
pub open spec fn copper_spec() -> VeinType {
    VeinType {
        ore: BlockKind::CopperOre,
        raw_ore: BlockKind::RawCopperBlock,
        stone: BlockKind::Granite,
        min_y: 0,
        max_y: 50,
    }
}

/// The iron vein: deepslate iron ore, raw iron and tuff between y -60 and -8.
pub open spec fn iron_spec() -> VeinType {
    VeinType {
        ore: BlockKind::DeepslateIronOre,
        raw_ore: BlockKind::RawIronBlock,
        stone: BlockKind::Tuff,
        min_y: -60i32,
        max_y: -8i32,
    }
}

pub fn copper() -> (v: VeinType)
    ensures
        v == copper_spec(),
{
    VeinType {
        ore: BlockKind::CopperOre,
        raw_ore: BlockKind::RawCopperBlock,
        stone: BlockKind::Granite,
        min_y: 0,
        max_y: 50,
    }
}

pub fn iron() -> (v: VeinType)
    ensures
        v == iron_spec(),
{
    VeinType {
        ore: BlockKind::DeepslateIronOre,
        raw_ore: BlockKind::RawIronBlock,
        stone: BlockKind::Tuff,
        min_y: -60i32,
        max_y: -8i32,
    }
}

/// A vein's band is never empty, and the global bounds enclose both bands.
pub proof fn lemma_catalog_bounds()
    ensures
        copper_spec().min_y < copper_spec().max_y,
        iron_spec().min_y < iron_spec().max_y,
        MIN_Y == iron_spec().min_y,
        MAX_Y == copper_spec().max_y,
        MIN_Y <= copper_spec().min_y && copper_spec().max_y <= MAX_Y,
        MIN_Y <= iron_spec().min_y && iron_spec().max_y <= MAX_Y,
{
}

} // verus!
