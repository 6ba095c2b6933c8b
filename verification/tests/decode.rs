use media_proxy::decode::{
    assemble, decode_image, decode_image_format, frames_to_images, is_frame_set, static_image,
    DecodeImageError, Orientation,
};
use media_proxy::format::Format;
use media_proxy::raster::{Delay, Frame, Raster};

fn png_bytes(width: u32, height: u32) -> Vec<u8> {
    let mut bytes: Vec<u8> = Vec::new();
    let picture = image::DynamicImage::ImageRgba8(image::RgbaImage::new(width, height));
    picture
        .write_to(&mut std::io::Cursor::new(&mut bytes), image::ImageFormat::Png)
        .unwrap();
    bytes
}

fn gif_bytes(width: u32, height: u32, delays: &[u32]) -> Vec<u8> {
    let mut bytes: Vec<u8> = Vec::new();
    {
        let mut encoder = image::codecs::gif::GifEncoder::new(&mut bytes);
        for (i, d) in delays.iter().enumerate() {
            let mut buffer = image::RgbaImage::new(width, height);
            buffer.put_pixel(0, 0, image::Rgba([(i as u8) * 50, 0, 0, 255]));
            let delay = image::Delay::from_numer_denom_ms(*d, 1);
            encoder
                .encode_frame(image::Frame::from_parts(buffer, 0, 0, delay))
                .unwrap();
        }
    }
    bytes
}

fn numbered(width: u32, height: u32) -> Raster {
    let mut raster = Raster::new(width, height);
    for (i, p) in raster.pixels.iter_mut().enumerate() {
        *p = i as u8;
    }
    raster
}

#[test]
fn still_png_gives_one_frame_without_delay() {
    let frames = decode_image(&png_bytes(7, 5), true).ok().unwrap();
    assert_eq!(frames.len(), 1);
    assert_eq!((frames[0].raster.width, frames[0].raster.height), (7, 5));
    assert_eq!(frames[0].raster.pixels.len(), 7 * 5 * 4);
    assert_eq!((frames[0].delay.numer, frames[0].delay.denom), (0, 1));
    assert_eq!(frames[0].delay.whole_ms(), 0);
}

#[test]
fn animated_gif_gives_every_frame_with_its_delay() {
    let frames = decode_image(&gif_bytes(6, 4, &[100, 250, 40]), true).ok().unwrap();
    assert_eq!(frames.len(), 3);
    assert_eq!(frames[0].delay.whole_ms(), 100);
    assert_eq!(frames[1].delay.whole_ms(), 250);
    assert_eq!(frames[2].delay.whole_ms(), 40);
    for f in frames.iter() {
        assert_eq!((f.raster.width, f.raster.height), (6, 4));
        assert!(f.raster.is_consistent());
    }
    assert_eq!(frames[1].raster.pixels[0], 50);
    assert_eq!(frames[2].raster.pixels[0], 100);
}

#[test]
fn animation_is_unsupported_where_not_allowed() {
    let animated = gif_bytes(6, 4, &[100, 250]);
    assert!(matches!(decode_image(&animated, false), Err(DecodeImageError::Unsupported)));
    let single = gif_bytes(6, 4, &[100]);
    assert_eq!(decode_image(&single, false).ok().unwrap().len(), 1);
    assert_eq!(decode_image(&png_bytes(2, 2), false).ok().unwrap().len(), 1);
}

#[test]
fn unknown_bytes_are_unsupported() {
    assert!(matches!(
        decode_image(b"<svg xmlns=\"http://www.w3.org/2000/svg\"/>", true),
        Err(DecodeImageError::Unsupported)
    ));
    assert!(matches!(decode_image(&[], true), Err(DecodeImageError::Unsupported)));
}

#[test]
fn declared_type_and_name_are_not_trusted() {
    // a GIF stays a GIF whatever it is called
    let frames = decode_image_format(&gif_bytes(3, 3, &[20, 20]), Format::Gif).ok().unwrap();
    assert_eq!(frames.len(), 2);
    assert!(decode_image_format(&png_bytes(3, 3), Format::Gif).is_err());
}

#[test]
fn truncated_file_is_a_codec_error() {
    let mut bytes = png_bytes(16, 16);
    bytes.truncate(40);
    assert!(matches!(decode_image(&bytes, true), Err(DecodeImageError::ImageError(_))));
}

#[test]
fn png_through_each_path() {
    let bytes = png_bytes(9, 3);
    let frames = decode_image_format(&bytes, Format::Png).ok().unwrap();
    assert_eq!(frames.len(), 1);
    assert_eq!((frames[0].raster.width, frames[0].raster.height), (9, 3));
    let bmp = media_proxy::options::target_format("/a.bmp");
    assert!(decode_image_format(&bytes, bmp).is_err());
    let mut as_bmp: Vec<u8> = Vec::new();
    image::DynamicImage::ImageRgba8(image::RgbaImage::new(9, 3))
        .write_to(&mut std::io::Cursor::new(&mut as_bmp), image::ImageFormat::Bmp)
        .unwrap();
    let frames = decode_image_format(&as_bmp, bmp).ok().unwrap();
    assert_eq!((frames[0].raster.width, frames[0].raster.height), (9, 3));
}

#[test]
fn still_webp_decodes() {
    let mut bytes: Vec<u8> = Vec::new();
    image::DynamicImage::ImageRgba8(image::RgbaImage::new(5, 8))
        .write_to(&mut std::io::Cursor::new(&mut bytes), image::ImageFormat::WebP)
        .unwrap();
    let frames = decode_image(&bytes, true).ok().unwrap();
    assert_eq!(frames.len(), 1);
    assert_eq!((frames[0].raster.width, frames[0].raster.height), (5, 8));
}

#[test]
fn jpeg_decodes_as_one_frame() {
    let frames = decode_image(&jpeg_bytes(12, 10), true).ok().unwrap();
    assert_eq!(frames.len(), 1);
    assert_eq!((frames[0].raster.width, frames[0].raster.height), (12, 10));
    assert_eq!(frames[0].raster.pixels.len(), 12 * 10 * 4);
}

#[test]
fn quarter_turn_exchanges_the_sides() {
    let frames = vec![Frame { raster: numbered(3, 2), delay: Delay::from_numer_denom_ms(5, 1) }];
    let turned = frames_to_images(frames, Some(Orientation::Rotate90));
    assert_eq!(turned.len(), 1);
    assert_eq!((turned[0].raster.width, turned[0].raster.height), (2, 3));
    assert_eq!(turned[0].delay.whole_ms(), 5);
    // the pixel at the bottom left moves to the top left
    assert_eq!(&turned[0].raster.pixels[0..4], &[12, 13, 14, 15]);
    for o in [Orientation::Rotate270, Orientation::Rotate90FlipH, Orientation::Rotate270FlipH] {
        let frames = vec![Frame { raster: numbered(3, 2), delay: Delay::zero() }];
        let turned = frames_to_images(frames, Some(o));
        assert_eq!((turned[0].raster.width, turned[0].raster.height), (2, 3));
    }
}

#[test]
fn half_turn_and_flips_keep_the_sides() {
    for o in [
        Orientation::NoTransforms,
        Orientation::Rotate180,
        Orientation::FlipHorizontal,
        Orientation::FlipVertical,
    ] {
        let frames = vec![Frame { raster: numbered(3, 2), delay: Delay::zero() }];
        let turned = frames_to_images(frames, Some(o));
        assert_eq!((turned[0].raster.width, turned[0].raster.height), (3, 2));
        assert_eq!(turned[0].raster.pixels.len(), 24);
    }
    let frames = vec![Frame { raster: numbered(3, 2), delay: Delay::zero() }];
    let turned = frames_to_images(frames, Some(Orientation::Rotate180));
    assert_eq!(&turned[0].raster.pixels[0..4], &[20, 21, 22, 23]);
    let frames = vec![Frame { raster: numbered(3, 2), delay: Delay::zero() }];
    let same = frames_to_images(frames, None);
    assert_eq!(&same[0].raster.pixels[0..4], &[0, 1, 2, 3]);
}

#[test]
fn assemble_orients_every_frame() {
    let frames = vec![
        Frame { raster: numbered(3, 2), delay: Delay::from_numer_denom_ms(10, 1) },
        Frame { raster: numbered(3, 2), delay: Delay::from_numer_denom_ms(20, 1) },
    ];
    let out = assemble(Ok(frames), Some(Orientation::Rotate90), true).ok().unwrap();
    assert_eq!(out.len(), 2);
    for f in out.iter() {
        assert_eq!((f.raster.width, f.raster.height), (2, 3));
    }
    assert_eq!(out[1].delay.whole_ms(), 20);
}

#[test]
fn assemble_refuses_what_is_no_frame_set() {
    assert!(matches!(assemble(Ok(Vec::new()), None, true), Err(DecodeImageError::Malformed)));
    let short = Frame {
        raster: Raster { width: 2, height: 2, pixels: vec![0; 15] },
        delay: Delay::zero(),
    };
    assert!(matches!(assemble(Ok(vec![short]), None, true), Err(DecodeImageError::Malformed)));
    let timeless = Frame { raster: Raster::new(2, 2), delay: Delay { numer: 1, denom: 0 } };
    assert!(!is_frame_set(&vec![Frame { raster: Raster::new(1, 1), delay: Delay { numer: 1, denom: 0 } }]));
    assert!(matches!(
        assemble(Ok(vec![timeless]), None, true),
        Err(DecodeImageError::Malformed)
    ));
    assert!(is_frame_set(&vec![Frame { raster: Raster::new(1, 1), delay: Delay::zero() }]));
}

#[test]
fn assemble_hands_the_codec_error_on() {
    let mut bytes = png_bytes(16, 16);
    bytes.truncate(40);
    let raw = decode_image_format(&bytes, Format::Png);
    assert!(raw.is_err());
    assert!(matches!(assemble(raw, None, true), Err(DecodeImageError::ImageError(_))));
}

#[test]
fn static_image_is_one_frame() {
    let frames = static_image(Ok(Raster::new(4, 3))).ok().unwrap();
    assert_eq!(frames.len(), 1);
    assert_eq!((frames[0].delay.numer, frames[0].delay.denom), (0, 1));
    assert_eq!((frames[0].raster.width, frames[0].raster.height), (4, 3));
}

fn crc32(bytes: &[u8]) -> u32 {
    let mut crc: u32 = 0xffff_ffff;
    for b in bytes {
        crc ^= *b as u32;
        for _ in 0..8 {
            crc = if crc & 1 == 1 { (crc >> 1) ^ 0xedb8_8320 } else { crc >> 1 };
        }
    }
    !crc
}

fn chunk(kind: &[u8; 4], data: &[u8]) -> Vec<u8> {
    let mut out = (data.len() as u32).to_be_bytes().to_vec();
    let mut body = kind.to_vec();
    body.extend_from_slice(data);
    out.extend_from_slice(&body);
    out.extend_from_slice(&crc32(&body).to_be_bytes());
    out
}

fn frame_control(sequence: u32, width: u32, height: u32, num: u16, den: u16) -> Vec<u8> {
    let mut data = sequence.to_be_bytes().to_vec();
    data.extend_from_slice(&width.to_be_bytes());
    data.extend_from_slice(&height.to_be_bytes());
    data.extend_from_slice(&[0; 8]);
    data.extend_from_slice(&num.to_be_bytes());
    data.extend_from_slice(&den.to_be_bytes());
    data.extend_from_slice(&[0, 0]);
    chunk(b"fcTL", &data)
}

// Two frames that repeat the picture of a still PNG.
fn apng_bytes(width: u32, height: u32) -> Vec<u8> {
    let still = png_bytes(width, height);
    let mut header: Vec<u8> = Vec::new();
    let mut pixels: Vec<u8> = Vec::new();
    let mut at = 8;
    while at + 8 <= still.len() {
        let len = u32::from_be_bytes([still[at], still[at + 1], still[at + 2], still[at + 3]]) as usize;
        let kind = &still[at + 4..at + 8];
        let data = &still[at + 8..at + 8 + len];
        if kind == b"IHDR" {
            header = data.to_vec();
        }
        if kind == b"IDAT" {
            pixels.extend_from_slice(data);
        }
        at += 12 + len;
    }
    let mut out = still[0..8].to_vec();
    out.extend(chunk(b"IHDR", &header));
    out.extend(chunk(b"acTL", &[0, 0, 0, 2, 0, 0, 0, 0]));
    out.extend(frame_control(0, width, height, 1, 10));
    out.extend(chunk(b"IDAT", &pixels));
    out.extend(frame_control(1, width, height, 3, 20));
    let mut next = 2u32.to_be_bytes().to_vec();
    next.extend_from_slice(&pixels);
    out.extend(chunk(b"fdAT", &next));
    out.extend(chunk(b"IEND", &[]));
    out
}

fn jpeg_bytes(width: u32, height: u32) -> Vec<u8> {
    let mut bytes: Vec<u8> = Vec::new();
    image::DynamicImage::ImageRgb8(image::RgbImage::new(width, height))
        .write_to(&mut std::io::Cursor::new(&mut bytes), image::ImageFormat::Jpeg)
        .unwrap();
    bytes
}

// A JPEG whose metadata asks for a quarter turn clockwise.
fn turned_jpeg_bytes(width: u32, height: u32) -> Vec<u8> {
    let plain = jpeg_bytes(width, height);
    let exif: [u8; 32] = [
        b'E', b'x', b'i', b'f', 0, 0, b'I', b'I', 42, 0, 8, 0, 0, 0, 1, 0, 0x12, 0x01, 3, 0, 1,
        0, 0, 0, 6, 0, 0, 0, 0, 0, 0, 0,
    ];
    let mut out = plain[0..2].to_vec();
    out.extend_from_slice(&[0xff, 0xe1]);
    out.extend_from_slice(&((exif.len() + 2) as u16).to_be_bytes());
    out.extend_from_slice(&exif);
    out.extend_from_slice(&plain[2..]);
    out
}

#[test]
fn animated_png_gives_every_frame_with_its_delay() {
    let frames = decode_image(&apng_bytes(4, 3), true).ok().unwrap();
    assert_eq!(frames.len(), 2);
    assert_eq!(frames[0].delay.whole_ms(), 100);
    assert_eq!(frames[1].delay.whole_ms(), 150);
    for f in frames.iter() {
        assert_eq!((f.raster.width, f.raster.height), (4, 3));
        assert!(f.raster.is_consistent());
    }
    assert!(matches!(
        decode_image(&apng_bytes(4, 3), false),
        Err(DecodeImageError::Unsupported)
    ));
}

#[test]
fn stored_quarter_turn_is_applied() {
    let plain = decode_image(&jpeg_bytes(16, 8), true).ok().unwrap();
    assert_eq!((plain[0].raster.width, plain[0].raster.height), (16, 8));
    let frames = decode_image(&turned_jpeg_bytes(16, 8), true).ok().unwrap();
    assert_eq!(frames.len(), 1);
    assert_eq!((frames[0].raster.width, frames[0].raster.height), (8, 16));
    assert_eq!(frames[0].raster.pixels.len(), 8 * 16 * 4);
}

#[test]
fn quarter_turn_puts_every_pixel_in_its_place() {
    let (w, h) = (3usize, 2usize);
    let source = numbered(w as u32, h as u32);
    let frames = vec![Frame { raster: numbered(w as u32, h as u32), delay: Delay::zero() }];
    let turned = frames_to_images(frames, Some(Orientation::Rotate90));
    let out = &turned[0].raster;
    assert_eq!((out.width as usize, out.height as usize), (h, w));
    for y in 0..w {
        for x in 0..h {
            for c in 0..4 {
                assert_eq!(
                    out.pixels[4 * (y * h + x) + c],
                    source.pixels[4 * ((h - 1 - x) * w + y) + c]
                );
            }
        }
    }
}

#[test]
fn stored_quarter_turn_moves_the_pixels() {
    // the left half of the picture is white, the right half black
    let mut picture = image::RgbImage::new(16, 8);
    for y in 0..8 {
        for x in 0..8 {
            picture.put_pixel(x, y, image::Rgb([255, 255, 255]));
        }
    }
    let mut plain: Vec<u8> = Vec::new();
    image::DynamicImage::ImageRgb8(picture)
        .write_to(&mut std::io::Cursor::new(&mut plain), image::ImageFormat::Jpeg)
        .unwrap();
    let exif: [u8; 32] = [
        b'E', b'x', b'i', b'f', 0, 0, b'I', b'I', 42, 0, 8, 0, 0, 0, 1, 0, 0x12, 0x01, 3, 0, 1,
        0, 0, 0, 6, 0, 0, 0, 0, 0, 0, 0,
    ];
    let mut bytes = plain[0..2].to_vec();
    bytes.extend_from_slice(&[0xff, 0xe1]);
    bytes.extend_from_slice(&((exif.len() + 2) as u16).to_be_bytes());
    bytes.extend_from_slice(&exif);
    bytes.extend_from_slice(&plain[2..]);
    let frames = decode_image(&bytes, true).ok().unwrap();
    let out = &frames[0].raster;
    assert_eq!((out.width, out.height), (8, 16));
    // turned clockwise, the white half is on top
    assert!(out.pixels[4 * (2 * 8 + 4)] > 200);
    assert!(out.pixels[4 * (13 * 8 + 4)] < 50);
}
