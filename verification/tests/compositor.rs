use pixelframe::compositor::blit;
use pixelframe::compositor::clear;
use pixelframe::compositor::composite;
use pixelframe::compositor::Placement;
use pixelframe::image::ImageAsset;

fn asset_2x2() -> ImageAsset {
    // two rows with distinct per-row byte patterns
    let mut pixels = Vec::new();
    for k in 0..8 {
        pixels.push(0x10 + k as u8);
    }
    for k in 0..8 {
        pixels.push(0xa0 + k as u8);
    }
    ImageAsset { pixels, width: 2, height: 2 }
}

fn garbage(len: usize, seed: u8) -> Vec<u8> {
    let mut v = Vec::with_capacity(len);
    let mut b = seed;
    for _ in 0..len {
        b = b.wrapping_mul(31).wrapping_add(7);
        v.push(b);
    }
    v
}

#[test]
fn centered_placement_of_64x64_in_320x240() {
    let p = Placement::centered(320, 240, 64, 64);
    assert_eq!(p.x, 128);
    assert_eq!(p.y, 88);
}

#[test]
fn centering_truncates_odd_differences() {
    let p = Placement::centered(5, 5, 2, 2);
    assert_eq!(p.x, 1);
    assert_eq!(p.y, 1);
}

#[test]
fn clear_zeroes_every_byte() {
    let mut buf = garbage(100, 3);
    clear(&mut buf);
    assert_eq!(buf.len(), 100);
    assert!(buf.iter().all(|&b| b == 0));
}

#[test]
fn composited_buffer_keeps_its_exact_length() {
    let asset = asset_2x2();
    let p = Placement::centered(320, 240, 2, 2);
    let mut dest = garbage(320 * 240 * 4, 9);
    composite(&mut dest, 320, 240, &p, &asset);
    assert_eq!(dest.len(), 320 * 240 * 4);
}

#[test]
fn row_copy_into_4x4_at_1_1() {
    let asset = asset_2x2();
    let p = Placement { x: 1, y: 1 };
    let mut dest = garbage(4 * 4 * 4, 17);
    composite(&mut dest, 4, 4, &p, &asset);
    // destination row 1 starts at byte (1 * 4 + 1) * 4 = 20
    assert_eq!(&dest[20..28], &asset.pixels[0..8]);
    // destination row 2 starts at byte (2 * 4 + 1) * 4 = 36
    assert_eq!(&dest[36..44], &asset.pixels[8..16]);
    for (i, &b) in dest.iter().enumerate() {
        let inside = (20..28).contains(&i) || (36..44).contains(&i);
        if !inside {
            assert_eq!(b, 0, "byte {} should be transparent black", i);
        }
    }
}

#[test]
fn compositing_twice_gives_identical_bytes() {
    let asset = asset_2x2();
    let p = Placement { x: 1, y: 1 };
    let mut first = garbage(4 * 4 * 4, 101);
    let mut second = garbage(4 * 4 * 4, 202);
    composite(&mut first, 4, 4, &p, &asset);
    composite(&mut second, 4, 4, &p, &asset);
    assert_eq!(first, second);
    composite(&mut second, 4, 4, &p, &asset);
    assert_eq!(first, second);
}

#[test]
fn blit_leaves_bytes_outside_the_footprint_unchanged() {
    let asset = asset_2x2();
    let before = garbage(4 * 4 * 4, 55);
    let mut dest = before.clone();
    blit(&mut dest, 4, 1, 1, &asset.pixels, 2, 2);
    assert_eq!(&dest[20..28], &asset.pixels[0..8]);
    assert_eq!(&dest[36..44], &asset.pixels[8..16]);
    for i in 0..dest.len() {
        let inside = (20..28).contains(&i) || (36..44).contains(&i);
        if !inside {
            assert_eq!(dest[i], before[i], "byte {} should keep its old value", i);
        }
    }
}

#[test]
fn full_coverage_blit_at_origin() {
    let asset = asset_2x2();
    let mut dest = garbage(2 * 2 * 4, 77);
    blit(&mut dest, 2, 0, 0, &asset.pixels, 2, 2);
    assert_eq!(dest, asset.pixels);
}
