//! Which scenery stands beside each road tile. The choice is a fixed function
//! of the tile's index along the road, so the same tile always shows the same
//! scenery however often it is drawn.

use vstd::prelude::*;

verus! {

/// The tile's hash for one of the three scenery rows: `z * mul + add`, taken
/// modulo 2^32 as 32-bit wrapping arithmetic gives it.
pub open spec fn scatter_hash(z: int, mul: int, add: int) -> u32 {
    ((z * mul + add) % 0x1_0000_0000) as u32
}

fn scatter(z: i32, mul: i64, add: i64) -> (h: u32)
    requires
        0 < mul < 0x100_0000,
        0 <= add < 0x1_0000_0000,
    ensures
        h == scatter_hash(z as int, mul as int, add as int),
{
    assert(-0x80_0000_0000_0000 <= (z as int) * (mul as int) <= 0x80_0000_0000_0000) by (nonlinear_arith)
        requires
            -0x8000_0000 <= z < 0x8000_0000,
            0 < mul < 0x100_0000,
    ;
    let x: i64 = (z as i64) * mul + add;
    let m: i64 = x % 0x1_0000_0000;
    let r: i64 = if m < 0 {
        m + 0x1_0000_0000
    } else {
        m
    };
    assert(r == (x as int) % 0x1_0000_0000);
    r as u32
}

/// The three hashes of road tile `z_idx`: left scenery, right scenery and
/// roadside fixtures.
pub fn decoration_hashes(z_idx: i32) -> (h: (u32, u32, u32))
    ensures
        h.0 == scatter_hash(z_idx as int, 1234567, 9876543),
        h.1 == scatter_hash(z_idx as int, 7654321, 3456789),
        h.2 == scatter_hash(z_idx as int, 1357911, 2468101),
{
    (scatter(z_idx, 1234567, 9876543), scatter(z_idx, 7654321, 3456789), scatter(z_idx, 1357911, 2468101))
}

/// Number of kinds of natural scenery (trees, rocks, flowers, ...).
pub const NATURAL_DECORATION_KINDS: usize = 8;

/// Number of kinds of roadside fixtures (lights, cones, ...).
pub const URBAN_DECORATION_KINDS: usize = 4;

/// A piece of natural scenery beside the road.
#[derive(Debug, Clone, Copy, PartialEq, Eq, Structural)]
pub struct NaturalDecoration {
    /// Which of the natural kinds it is.
    pub kind: usize,
    /// Distance from the road's edge in whole units.
    pub side_offset: u32,
    /// Turn about the vertical axis, in degrees.
    pub rotation_deg: u32,
    /// Size step: the model is scaled by `1 + 0.05 * scale_step`.
    pub scale_step: u32,
}

/// A roadside fixture at the edge of the road.
#[derive(Debug, Clone, Copy, PartialEq, Eq, Structural)]
pub struct UrbanDecoration {
    /// Which of the fixture kinds it is.
    pub kind: usize,
    /// Whether it stands on the left edge (else on the right).
    pub on_left: bool,
}

/// Natural scenery for a hash: 40 of every 100 hash values place one.
pub open spec fn natural_decoration_for(h: u32) -> Option<NaturalDecoration> {
    if h % 100 < 40 {
        Some(
            NaturalDecoration {
                kind: ((h / 100) % 8) as usize,
                side_offset: (2 + h % 15) as u32,
                rotation_deg: h % 360,
                scale_step: h % 10,
            },
        )
    } else {
        None
    }
}

/// A roadside fixture for a hash: 15 of every 100 hash values place one.
pub open spec fn urban_decoration_for(h: u32) -> Option<UrbanDecoration> {
    if h % 100 < 15 {
        Some(UrbanDecoration { kind: ((h / 100) % 4) as usize, on_left: h % 2 == 0 })
    } else {
        None
    }
}

pub fn natural_decoration(hash: u32) -> (d: Option<NaturalDecoration>)
    ensures
        d == natural_decoration_for(hash),
{
    if hash % 100 < 40 {
        Some(
            NaturalDecoration {
                kind: ((hash / 100) % 8) as usize,
                side_offset: 2 + hash % 15,
                rotation_deg: hash % 360,
                scale_step: hash % 10,
            },
        )
    } else {
        None
    }
}

pub fn urban_decoration(hash: u32) -> (d: Option<UrbanDecoration>)
    ensures
        d == urban_decoration_for(hash),
{
    if hash % 100 < 15 {
        Some(UrbanDecoration { kind: ((hash / 100) % 4) as usize, on_left: hash % 2 == 0 })
    } else {
        None
    }
}

/// The model key of a natural scenery kind.
pub open spec fn natural_key_of(kind: nat) -> Seq<char> {
    if kind == 0 {
        "dec_tree"@
    } else if kind == 1 {
        "dec_tree_pine"@
    } else if kind == 2 {
        "dec_rocks"@
    } else if kind == 3 {
        "dec_stones"@
    } else if kind == 4 {
        "dec_mushrooms"@
    } else if kind == 5 {
        "dec_flowers_tall"@
    } else if kind == 6 {
        "dec_plant"@
    } else {
        "dec_grass"@
    }
}

/// The model key of a roadside fixture kind.
pub open spec fn urban_key_of(kind: nat) -> Seq<char> {
    if kind == 0 {
        "dec_light"@
    } else if kind == 1 {
        "dec_cone"@
    } else if kind == 2 {
        "dec_clight"@
    } else {
        "dec_barrier"@
    }
}

pub fn natural_decoration_key(kind: usize) -> (k: &'static str)
    requires
        kind < NATURAL_DECORATION_KINDS,
    ensures
        k@ == natural_key_of(kind as nat),
{
    if kind == 0 {
        "dec_tree"
    } else if kind == 1 {
        "dec_tree_pine"
    } else if kind == 2 {
        "dec_rocks"
    } else if kind == 3 {
        "dec_stones"
    } else if kind == 4 {
        "dec_mushrooms"
    } else if kind == 5 {
        "dec_flowers_tall"
    } else if kind == 6 {
        "dec_plant"
    } else {
        "dec_grass"
    }
}

pub fn urban_decoration_key(kind: usize) -> (k: &'static str)
    requires
        kind < URBAN_DECORATION_KINDS,
    ensures
        k@ == urban_key_of(kind as nat),
{
    if kind == 0 {
        "dec_light"
    } else if kind == 1 {
        "dec_cone"
    } else if kind == 2 {
        "dec_clight"
    } else {
        "dec_barrier"
    }
}

// ── Laws ────────────────────────────────────────────────────────────────

/// Every placed piece names an existing kind and stays within its ranges:
/// natural scenery 2 to 16 units from the road, turned less than a full
/// circle, scaled by at most 1.45.
pub proof fn lemma_decorations_in_range(h: u32)
    ensures
        (natural_decoration_for(h) matches Some(d) ==> d.kind < NATURAL_DECORATION_KINDS
            && 2 <= d.side_offset <= 16 && d.rotation_deg < 360 && d.scale_step < 10),
        (urban_decoration_for(h) matches Some(d) ==> d.kind < URBAN_DECORATION_KINDS),
{
}

} // verus!
