use toon_dash::models::{append_indexed, append_unindexed, MeshIndexError};
use toon_dash::rendering::{
    decoration_hashes, natural_decoration, natural_decoration_key, urban_decoration,
    urban_decoration_key, NaturalDecoration, UrbanDecoration,
};

fn wrapping_hashes(z: i32) -> (u32, u32, u32) {
    (
        (z.wrapping_mul(1234567)).wrapping_add(9876543) as u32,
        (z.wrapping_mul(7654321)).wrapping_add(3456789) as u32,
        (z.wrapping_mul(1357911)).wrapping_add(2468101) as u32,
    )
}

#[test]
fn hashes_match_wrapping_arithmetic() {
    for z in [0, 1, -1, 7, 42, -42, 1000, 123456, -987654, i32::MAX, i32::MIN] {
        assert_eq!(decoration_hashes(z), wrapping_hashes(z));
    }
    assert_eq!(decoration_hashes(0), (9876543, 3456789, 2468101));
    assert_eq!(decoration_hashes(1).0, 11111110);
}

#[test]
fn scenery_choice() {
    // 11111110 % 100 = 10 < 40: placed
    assert_eq!(
        natural_decoration(11111110),
        Some(NaturalDecoration { kind: 111111 % 8, side_offset: 2 + 11111110 % 15, rotation_deg: 11111110 % 360, scale_step: 0 })
    );
    assert_eq!(natural_decoration(40), None);
    assert_eq!(natural_decoration(39), Some(NaturalDecoration { kind: 0, side_offset: 2 + 9, rotation_deg: 39, scale_step: 9 }));
    assert_eq!(urban_decoration(15), None);
    assert_eq!(urban_decoration(14), Some(UrbanDecoration { kind: 0, on_left: true }));
    assert_eq!(urban_decoration(313), Some(UrbanDecoration { kind: 3, on_left: false }));
}

#[test]
fn scenery_keys() {
    let natural = [
        "dec_tree", "dec_tree_pine", "dec_rocks", "dec_stones", "dec_mushrooms",
        "dec_flowers_tall", "dec_plant", "dec_grass",
    ];
    for (i, k) in natural.iter().enumerate() {
        assert_eq!(natural_decoration_key(i), *k);
    }
    let urban = ["dec_light", "dec_cone", "dec_clight", "dec_barrier"];
    for (i, k) in urban.iter().enumerate() {
        assert_eq!(urban_decoration_key(i), *k);
    }
}

#[test]
fn indexed_primitives_are_shifted() {
    let mut all = vec![0u16, 1, 2];
    assert_eq!(append_indexed(&mut all, 3, &[0, 1, 2, 2, 1]), Ok(()));
    assert_eq!(all, vec![0, 1, 2, 3, 4, 5, 5, 4]);

    let mut all = vec![9u16];
    assert_eq!(
        append_indexed(&mut all, 65530, &[1, 5, 6, 0]),
        Err(MeshIndexError::IndexOverflow)
    );
    assert_eq!(all, vec![9, 65531, 65535]);
    assert_eq!(
        MeshIndexError::IndexOverflow.message(),
        "mesh index overflow — model too complex for u16 indices"
    );
}

#[test]
fn unindexed_primitives_are_numbered_in_order() {
    let mut all = vec![];
    assert_eq!(append_unindexed(&mut all, 10, 3), Ok(()));
    assert_eq!(all, vec![10, 11, 12]);
    assert_eq!(append_unindexed(&mut all, 0, 65536), Err(MeshIndexError::UnindexedTooLarge));
    assert_eq!(all, vec![10, 11, 12]);
    assert_eq!(MeshIndexError::UnindexedTooLarge.message(), "unindexed mesh too large");

    let mut all = vec![];
    assert_eq!(append_unindexed(&mut all, 65534, 3), Ok(()));
    assert_eq!(all, vec![65534, 65535, 0]);
}
