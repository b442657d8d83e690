use pathtracer::{generate_perm, Image, Perlin, Texel};

fn texel(v: u8) -> Texel {
    Texel { red: v, green: v, blue: v }
}

#[test]
fn image_rejects_degenerate_dimensions() {
    assert!(Image::new(0, 2, vec![]).is_none());
    assert!(Image::new(2, 0, vec![]).is_none());
    assert!(Image::new(2, 2, vec![texel(1), texel(2), texel(3)]).is_none());
    assert!(Image::new(2, 2, vec![texel(1), texel(2), texel(3), texel(4)]).is_some());
}

#[test]
fn image_lookup_flips_vertically() {
    // Row-major from the top: top row 10, 20; bottom row 30, 40.
    let img = Image::new(2, 2, vec![texel(10), texel(20), texel(30), texel(40)]).unwrap();
    // A raw bottom-up row index of 0 lands on the bottom row.
    assert_eq!(img.texel(0, 0), texel(30));
    assert_eq!(img.texel(1, 0), texel(40));
    // A raw bottom-up row index of the full height lands on the top row.
    assert_eq!(img.texel(0, 2), texel(10));
    assert_eq!(img.texel(1, 2), texel(20));
}

#[test]
fn image_lookup_clamps_everything() {
    let img = Image::new(2, 2, vec![texel(10), texel(20), texel(30), texel(40)]).unwrap();
    // Far out of range on both sides: clamped, never out of bounds.
    assert_eq!(img.texel(u32::MAX, 0), texel(40));
    assert_eq!(img.texel(0, u32::MAX), texel(10));
    assert_eq!(img.texel(u32::MAX, u32::MAX), texel(20));
    // A one-texel image answers every query with its only texel.
    let dot = Image::new(1, 1, vec![texel(7)]).unwrap();
    assert_eq!(dot.texel(0, 0), texel(7));
    assert_eq!(dot.texel(u32::MAX, u32::MAX), texel(7));
}

#[test]
fn generated_perm_is_a_permutation() {
    let mut perm = generate_perm();
    assert_eq!(perm.len(), 256);
    perm.sort();
    for (i, v) in perm.iter().enumerate() {
        assert_eq!(*v as usize, i);
    }
}

#[test]
fn corner_hash_repeats_every_256_cells() {
    let perlin = Perlin::new();
    for (x, y, z) in [(0i64, 0, 0), (1, 2, 3), (17, -5, 200)] {
        let here = perlin.corner_hash(x, y, z);
        assert_eq!(perlin.corner_hash(x + 256, y + 256, z + 256), here);
        assert_eq!(perlin.corner_hash(x - 256, y, z + 512), here);
    }
}

#[test]
fn corner_hash_folds_negative_coordinates() {
    let perlin = Perlin::new();
    assert_eq!(perlin.corner_hash(-1, 0, 0), perlin.corner_hash(255, 0, 0));
    assert_eq!(perlin.corner_hash(0, -256, 0), perlin.corner_hash(0, 0, 0));
}
