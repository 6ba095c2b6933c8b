use media_proxy::decode::decode_image;
use media_proxy::encode::{encode_image, encode_webp, timestamps, webp_settings, EncodeError};
use media_proxy::format::Format;
use media_proxy::options::target_format;
use media_proxy::raster::{Delay, Frame, Raster};

fn frame(width: u32, height: u32, shade: u8, numer: u32, denom: u32) -> Frame {
    let mut raster = Raster::new(width, height);
    for p in raster.pixels.iter_mut() {
        *p = shade;
    }
    Frame { raster, delay: Delay::from_numer_denom_ms(numer, denom) }
}

#[test]
fn timestamps_are_running_sums_of_whole_milliseconds() {
    let frames = vec![
        frame(2, 2, 0, 100, 1),
        frame(2, 2, 0, 250, 1),
        frame(2, 2, 0, 7, 2),
        frame(2, 2, 0, 40, 1),
    ];
    let schedule = timestamps(&frames).unwrap();
    assert_eq!(schedule.starts, vec![0, 100, 350, 353]);
    assert_eq!(schedule.total, 393);
}

#[test]
fn timestamps_of_a_still() {
    let schedule = timestamps(&vec![frame(2, 2, 0, 0, 1)]).unwrap();
    assert_eq!(schedule.starts, vec![0]);
    assert_eq!(schedule.total, 0);
    let none = timestamps(&Vec::new()).unwrap();
    assert_eq!(none.starts.len(), 0);
    assert_eq!(none.total, 0);
}

#[test]
fn timestamps_stop_at_the_largest_timestamp() {
    let fits = vec![frame(1, 1, 0, 2147483647, 1)];
    assert_eq!(timestamps(&fits).unwrap().total, 2147483647);
    let over = vec![frame(1, 1, 0, 2147483647, 1), frame(1, 1, 0, 1, 1)];
    assert!(timestamps(&over).is_none());
    let far_over = vec![frame(1, 1, 0, u32::MAX, 1)];
    assert!(timestamps(&far_over).is_none());
    assert!(matches!(encode_webp(&far_over), Err(EncodeError::DurationOverflow)));
    assert!(matches!(
        encode_image(over, Format::WebP),
        Err(EncodeError::DurationOverflow)
    ));
}

#[test]
fn animation_keeps_its_timing_through_webp() {
    let frames = vec![
        frame(8, 6, 10, 100, 1),
        frame(8, 6, 120, 250, 1),
        frame(8, 6, 240, 40, 1),
    ];
    let encoded = encode_image(frames, Format::WebP).ok().unwrap();
    assert_eq!(encoded.1, "image/webp");
    let decoder = webp_animation::Decoder::new(&encoded.0).unwrap();
    let shown: Vec<i32> = decoder.into_iter().map(|f| f.timestamp()).collect();
    // the decoder reports when each frame ends
    assert_eq!(shown, vec![100, 350, 390]);
    let back = decode_image(&encoded.0, true).ok().unwrap();
    assert_eq!(back.len(), 3);
    assert_eq!(back[0].delay.whole_ms(), 100);
    assert_eq!(back[1].delay.whole_ms(), 250);
    assert_eq!(back[2].delay.whole_ms(), 40);
    assert_eq!((back[0].raster.width, back[0].raster.height), (8, 6));
}

#[test]
fn fractions_are_cut_off_before_they_are_added() {
    let frames = vec![frame(4, 4, 10, 101, 2), frame(4, 4, 200, 101, 2)];
    let encoded = encode_webp(&frames).ok().unwrap();
    let decoder = webp_animation::Decoder::new(&encoded).unwrap();
    let shown: Vec<i32> = decoder.into_iter().map(|f| f.timestamp()).collect();
    assert_eq!(shown, vec![50, 100]);
}

#[test]
fn gif_holds_every_frame() {
    let frames = vec![frame(5, 5, 10, 100, 1), frame(5, 5, 200, 200, 1)];
    let encoded = encode_image(frames, Format::Gif).ok().unwrap();
    assert_eq!(encoded.1, "image/gif");
    let back = decode_image(&encoded.0, true).ok().unwrap();
    assert_eq!(back.len(), 2);
    assert_eq!(back[0].delay.whole_ms(), 100);
    assert_eq!(back[1].delay.whole_ms(), 200);
}

#[test]
fn other_formats_hold_the_first_frame_only() {
    let frames = vec![frame(5, 3, 10, 100, 1), frame(9, 9, 200, 200, 1)];
    let encoded = encode_image(frames, Format::Png).ok().unwrap();
    assert_eq!(encoded.1, "image/png");
    let back = decode_image(&encoded.0, true).ok().unwrap();
    assert_eq!(back.len(), 1);
    assert_eq!((back[0].raster.width, back[0].raster.height), (5, 3));
    assert_eq!(back[0].raster.pixels[0], 10);
}

#[test]
fn jpeg_takes_an_rgba_frame() {
    let frames = vec![frame(16, 8, 255, 0, 1)];
    let encoded = encode_image(frames, target_format("/a.jpg")).ok().unwrap();
    assert_eq!(encoded.1, "image/jpeg");
    assert_eq!(image::guess_format(&encoded.0).unwrap(), image::ImageFormat::Jpeg);
}

#[test]
fn webp_refuses_an_empty_picture() {
    let frames = vec![Frame { raster: Raster::new(0, 0), delay: Delay::zero() }];
    assert!(matches!(encode_image(frames, Format::WebP), Err(EncodeError::WebP(_))));
}

#[test]
fn webp_refuses_a_frame_of_another_size() {
    let frames = vec![frame(4, 4, 1, 10, 1), frame(5, 4, 1, 10, 1)];
    assert!(matches!(encode_webp(&frames), Err(EncodeError::WebP(_))));
}

#[test]
fn settings_are_fixed() {
    let s = webp_settings();
    assert_eq!(s.loop_count, 0);
    assert!(s.allow_mixed);
    assert_eq!(s.alpha_quality, 95);
    assert_eq!(s.quality, 77);
    assert_eq!(s.method, 2);
}

#[test]
fn other_encoder_failure_is_an_image_error() {
    // a GIF cannot be wider than 65535 pixels
    let wide = vec![frame(70000, 1, 0, 10, 1)];
    assert!(matches!(encode_image(wide, Format::Gif), Err(EncodeError::Image(_))));
    // an icon cannot be larger than 256 pixels a side
    let large = vec![frame(300, 300, 0, 0, 1)];
    assert!(matches!(
        encode_image(large, target_format("/a.ico")),
        Err(EncodeError::Image(_))
    ));
}

#[test]
fn webp_refuses_two_frames_at_the_same_time() {
    // the first frame is shown for less than a millisecond
    let frames = vec![frame(4, 4, 1, 1, 2), frame(4, 4, 2, 10, 1)];
    assert!(matches!(encode_webp(&frames), Err(EncodeError::WebP(_))));
    assert!(matches!(encode_image(frames, Format::WebP), Err(EncodeError::WebP(_))));
    // the last frame may be
    let frames = vec![frame(4, 4, 1, 10, 1), frame(4, 4, 2, 0, 1)];
    assert!(encode_webp(&frames).is_ok());
    assert!(encode_webp(&vec![frame(4, 4, 1, 0, 1)]).is_ok());
}

#[test]
fn webp_refuses_a_longer_buffer() {
    let mut long = frame(4, 4, 1, 0, 1);
    long.raster.height = 5;
    long.raster.pixels.extend_from_slice(&[0; 16]);
    let frames = vec![frame(4, 4, 1, 10, 1), long];
    assert!(matches!(encode_webp(&frames), Err(EncodeError::WebP(_))));
}

#[test]
fn avif_holds_the_first_frame() {
    let format = target_format("/a.avif");
    assert!(matches!(format, Format::Avif));
    assert_eq!(format.media_type(), "image/avif");
    let frames = vec![frame(16, 16, 200, 0, 1), frame(16, 16, 10, 10, 1)];
    let encoded = encode_image(frames, format).ok().unwrap();
    assert_eq!(encoded.1, "image/avif");
    assert_eq!(image::guess_format(&encoded.0).unwrap(), image::ImageFormat::Avif);
}

#[test]
fn formats_name_their_media_types() {
    assert_eq!(Format::WebP.media_type(), "image/webp");
    assert_eq!(Format::Gif.media_type(), "image/gif");
    assert_eq!(Format::Png.media_type(), "image/png");
    assert_eq!(target_format("/a.jpeg").media_type(), "image/jpeg");
    assert_eq!(target_format("/a.bmp").media_type(), "image/bmp");
}

#[test]
fn open_exr_takes_no_eight_bit_picture() {
    let frames = vec![frame(16, 16, 200, 0, 1)];
    assert!(matches!(
        encode_image(frames, target_format("/a.exr")),
        Err(EncodeError::Image(_))
    ));
}
