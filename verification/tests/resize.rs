use media_proxy::raster::{Delay, Frame, Raster};
use media_proxy::resize::{
    can_shrink_inside, can_shrink_outside, check_samples_to, cover_dimensions, scaled_side,
    shrink_inside, shrink_inside_vec, shrink_outside, shrink_outside_vec,
};

#[test]
fn test_shrink_inside_skip() {
    let image = Raster::new(18, 18);
    let image = shrink_inside(image, 20, 20);
    assert_eq!(image.width, 18);
    assert_eq!(image.height, 18);
}

#[test]
fn test_shrink_inside_resize() {
    let image = Raster::new(18, 9);
    let image = shrink_inside(image, 10, 10);
    assert_eq!(image.width, 10);
    assert_eq!(image.height, 5);
}

#[test]
fn test_shrink_outside_skip() {
    let image = Raster::new(18, 9);
    let image = shrink_outside(image, 10);
    assert_eq!(image.width, 18);
    assert_eq!(image.height, 9);
}

#[test]
fn test_shrink_outside_resize() {
    let image = Raster::new(24, 12);
    let image = shrink_outside(image, 10);
    assert_eq!(image.width, 20);
    assert_eq!(image.height, 10);
}

#[test]
fn cover_rounds_half_up() {
    // 3 * 15 / 10 = 4.5
    assert_eq!(cover_dimensions(15, 10, 3), (5, 3));
    // 3 * 14 / 10 = 4.2
    assert_eq!(cover_dimensions(14, 10, 3), (4, 3));
    assert_eq!(cover_dimensions(10, 15, 3), (3, 5));
}

#[test]
fn cover_of_square_is_square() {
    assert_eq!(cover_dimensions(300, 300, 128), (128, 128));
}

#[test]
fn cover_keeps_what_does_not_exceed_on_both_sides() {
    assert_eq!(cover_dimensions(128, 500, 128), (128, 500));
    assert_eq!(cover_dimensions(500, 128, 128), (500, 128));
    assert_eq!(cover_dimensions(0, 0, 0), (0, 0));
}

#[test]
fn cover_handles_the_largest_sides() {
    assert_eq!(cover_dimensions(u32::MAX, u32::MAX, u32::MAX - 1), (u32::MAX - 1, u32::MAX - 1));
    assert_eq!(cover_dimensions(u32::MAX, 2, 1), (2147483648, 1));
}

#[test]
fn scaled_side_is_exact() {
    assert_eq!(scaled_side(128, 200, 256), 164);
    assert_eq!(scaled_side(10, 12, 24), 20);
}

#[test]
fn shrink_outside_scales_the_pixels() {
    let mut image = Raster::new(4, 4);
    for p in image.pixels.iter_mut() {
        *p = 200;
    }
    let image = shrink_outside(image, 2);
    assert_eq!((image.width, image.height), (2, 2));
    assert_eq!(image.pixels.len(), 16);
    assert!(image.pixels.iter().all(|p| *p == 200));
}

#[test]
fn shrink_vec_keeps_order_and_delays() {
    let frames = vec![
        Frame { raster: Raster::new(24, 12), delay: Delay::from_numer_denom_ms(30, 1) },
        Frame { raster: Raster::new(8, 8), delay: Delay::from_numer_denom_ms(70, 2) },
    ];
    let covered = shrink_outside_vec(frames, 10);
    assert_eq!(covered.len(), 2);
    assert_eq!((covered[0].raster.width, covered[0].raster.height), (20, 10));
    assert_eq!((covered[1].raster.width, covered[1].raster.height), (8, 8));
    assert_eq!((covered[0].delay.numer, covered[0].delay.denom), (30, 1));
    assert_eq!((covered[1].delay.numer, covered[1].delay.denom), (70, 2));
    let fitted = shrink_inside_vec(covered, 10, 10);
    assert_eq!((fitted[0].raster.width, fitted[0].raster.height), (10, 5));
    assert_eq!((fitted[1].raster.width, fitted[1].raster.height), (8, 8));
    assert_eq!(fitted[1].delay.whole_ms(), 35);
}

#[test]
fn raster_consistency() {
    let mut image = Raster::new(3, 2);
    assert_eq!(image.pixels.len(), 24);
    assert!(image.is_consistent());
    image.pixels.push(0);
    assert!(!image.is_consistent());
}

#[test]
fn fit_never_leaves_the_box() {
    let shapes: [(u32, u32, u32, u32); 7] = [
        (1, 100000, 200, 200),
        (100000, 1, 200, 200),
        (3, 1000, 200, 200),
        (499, 423, 498, 422),
        (201, 200, 200, 200),
        (1000, 1000, 1, 1),
        (7, 5, 3, 4),
    ];
    for (w, h, bw, bh) in shapes {
        let image = shrink_inside(Raster::new(w, h), bw, bh);
        assert!(image.is_consistent());
        assert!(image.width >= 1 && image.height >= 1);
        assert!(image.width <= bw && image.height <= bh);
        assert!(image.width == bw || image.height == bh);
    }
    let image = shrink_inside(Raster::new(1, 100000), 200, 200);
    assert_eq!((image.width, image.height), (1, 200));
    let image = shrink_inside(Raster::new(499, 423), 498, 422);
    assert_eq!((image.width, image.height), (498, 422));
}

#[test]
fn fit_keeps_what_fits() {
    let mut image = Raster::new(200, 200);
    image.pixels[5] = 9;
    let image = shrink_inside(image, 200, 200);
    assert_eq!((image.width, image.height), (200, 200));
    assert_eq!(image.pixels[5], 9);
    let image = shrink_inside(Raster::new(0, 0), 0, 0);
    assert_eq!((image.width, image.height), (0, 0));
}

#[test]
fn fit_never_grows_a_side() {
    for (w, h, bw, bh) in [(7u32, 5u32, 3u32, 400u32), (5, 7, 400, 3), (300, 2, 200, 200)] {
        let image = shrink_inside(Raster::new(w, h), bw, bh);
        assert!(image.width <= w && image.height <= h);
        assert!(image.width == bw || image.height == bh);
    }
    let image = shrink_inside(Raster::new(7, 5), 3, 400);
    assert_eq!((image.width, image.height), (3, 2));
}

#[test]
fn sampling_has_limits() {
    assert!(check_samples_to(4000, 4000, 1, 1));
    assert!(!check_samples_to(4001, 4000, 1, 1));
    assert!(check_samples_to(8_388_608, 1, 4_000_000, 1));
    assert!(!check_samples_to(8_388_609, 1, 4_000_000, 1));
    assert!(check_samples_to(u32::MAX, u32::MAX, 0, 7));
    assert!(check_samples_to(0, u32::MAX, 1, 1));
    assert!(can_shrink_outside(&Raster::new(4000, 30), 128));
    assert!(can_shrink_outside(&Raster::new(2, 9000), 1));
    assert!(can_shrink_outside(&Raster::new(2, 9000), 5));
    assert!(can_shrink_inside(&Raster::new(2, 2000), 1, 1));
    assert!(!can_shrink_inside(&Raster::new(2, 2001), 1, 1));
    assert!(can_shrink_inside(&Raster::new(2, 2002), 2, 2002));
    assert!(can_shrink_inside(&Raster::new(2, 2000), 0, 0));
    assert!(can_shrink_inside(&Raster::new(2, 2001), 0, 0));
    assert!(can_shrink_inside(&Raster::new(4000, 4000), 0, 5));
    assert!(!can_shrink_inside(&Raster::new(2000, 8500), 0, 5));
    assert!(!can_shrink_inside(&Raster::new(4000, 4001), 5, 0));
    assert!(!can_shrink_inside(&Raster::new(1, 8_388_609), 0, 0));
    assert!(can_shrink_inside(&Raster::new(0, 5), 0, 3));
    assert!(!can_shrink_inside(&Raster::new(0, 5), 0x4000_0000, 3));
}

#[test]
fn largest_block_is_sampled() {
    // every target pixel stands for 2000 rows of the source
    let mut image = Raster::new(1, 4000);
    for p in image.pixels.iter_mut() {
        *p = 255;
    }
    let image = shrink_inside(image, 2, 2);
    assert_eq!((image.width, image.height), (1, 2));
    assert!(image.pixels.iter().all(|p| *p == 255));
}

#[test]
fn cover_at_the_sampling_limit() {
    // one pixel of the cover stands for 4000 by 4000 white pixels
    let image = Raster { width: 4000, height: 4000, pixels: vec![255; 64_000_000] };
    assert!(can_shrink_outside(&image, 1));
    let image = shrink_outside(image, 1);
    assert_eq!((image.width, image.height), (1, 1));
    assert_eq!(image.pixels, vec![255, 255, 255, 255]);
}

#[test]
fn fit_at_the_sampling_limit() {
    let image = Raster { width: 2000, height: 2000, pixels: vec![255; 16_000_000] };
    assert!(can_shrink_inside(&image, 1, 1));
    let image = shrink_inside(image, 1, 1);
    assert_eq!((image.width, image.height), (1, 1));
    assert_eq!(image.pixels, vec![255, 255, 255, 255]);
}

#[test]
fn fit_into_a_box_with_one_side_of_no_length() {
    // the one pixel that is left stands for the whole raster
    let image = Raster { width: 2000, height: 8000, pixels: vec![255; 64_000_000] };
    assert!(can_shrink_inside(&image, 0, 5));
    let image = shrink_inside(image, 0, 5);
    assert_eq!((image.width, image.height), (1, 1));
    assert_eq!(image.pixels, vec![255, 255, 255, 255]);
    let image = shrink_inside(Raster::new(30, 20), 7, 0);
    assert_eq!((image.width, image.height), (1, 1));
}

fn is_nearest_pixel(side: i64, numer: i64, denom: i64) -> bool {
    if 2 * numer < denom {
        side == 1
    } else {
        (2 * (side * denom - numer)).abs() <= denom
    }
}

#[test]
fn fit_keeps_the_ratio_of_the_sides() {
    let sides: [u32; 10] = [1, 2, 3, 5, 6, 7, 9, 18, 31, 64];
    let boxes: [u32; 6] = [1, 2, 3, 5, 10, 20];
    for w in sides {
        for h in sides {
            for bw in boxes {
                for bh in boxes {
                    if w <= bw && h <= bh {
                        continue;
                    }
                    let image = shrink_inside(Raster::new(w, h), bw, bh);
                    let (rw, rh) = (image.width as i64, image.height as i64);
                    let (w, h, bw, bh) = (w as i64, h as i64, bw as i64, bh as i64);
                    if bw * h <= bh * w {
                        assert!(rw == bw && is_nearest_pixel(rh, h * bw, w));
                    }
                    if bh * w <= bw * h {
                        assert!(rh == bh && is_nearest_pixel(rw, w * bh, h));
                    }
                }
            }
        }
    }
    let image = shrink_inside(Raster::new(18, 9), 10, 20);
    assert_eq!((image.width, image.height), (10, 5));
    let image = shrink_inside(Raster::new(9000, 3), 7, 7);
    assert_eq!((image.width, image.height), (7, 1));
}
