use deckpanel::pipeline::{
    codec_for, crop_columns, place_pixels, prepare, render, render_tile, same_text, zone_span,
    zone_widths, Codec, DecodedImage, ImageError, Placement, RenderTarget,
};
use deckpanel::registry::{
    ImageFormat, ImageMirroring, ImageMode, ImageRotation, Kind, LogicalPosition,
};

fn gradient(width: u32, height: u32) -> Vec<u8> {
    let mut pixels = Vec::new();
    for y in 0..height {
        for x in 0..width {
            pixels.push((x * 255 / width.max(1)) as u8);
            pixels.push((y * 255 / height.max(1)) as u8);
            pixels.push(128);
        }
    }
    pixels
}

fn jpeg_bytes(width: u32, height: u32) -> Vec<u8> {
    let mut out = Vec::new();
    image::codecs::jpeg::JpegEncoder::new_with_quality(&mut out, 90)
        .encode(&gradient(width, height), width, height, image::ExtendedColorType::Rgb8)
        .unwrap();
    out
}

fn png_bytes(width: u32, height: u32) -> Vec<u8> {
    let picture = image::RgbImage::from_raw(width, height, gradient(width, height)).unwrap();
    let mut out = std::io::Cursor::new(Vec::new());
    picture.write_to(&mut out, image::ImageFormat::Png).unwrap();
    out.into_inner()
}

fn data_url(mime: &str, body: &[u8]) -> String {
    let mut url = format!("data:{},", mime);
    for b in body {
        url.push_str(&format!("%{:02X}", b));
    }
    url
}

fn dimensions_of(jpeg: &[u8]) -> (u32, u32) {
    let picture = image::load_from_memory_with_format(jpeg, image::ImageFormat::Jpeg).unwrap();
    (picture.width(), picture.height())
}

#[test]
fn gif_payload_is_unsupported() {
    let url = "data:image/gif;base64,R0lGODlhAQABAAAAACwAAAAAAQABAAACAkQBADs=";
    assert_eq!(prepare(url).err(), Some(ImageError::UnsupportedFormat));
    assert_eq!(prepare("data:text/plain,hello").err(), Some(ImageError::UnsupportedFormat));
    assert_eq!(prepare("data:,hello").err(), Some(ImageError::UnsupportedFormat));
}

#[test]
fn malformed_payloads_are_bad() {
    assert_eq!(prepare("").err(), Some(ImageError::BadPayload));
    assert_eq!(prepare("not a data url").err(), Some(ImageError::BadPayload));
    assert_eq!(prepare("data:image/jpeg").err(), Some(ImageError::BadPayload));
    assert_eq!(prepare("http://example.com/a.jpg").err(), Some(ImageError::BadPayload));
}

#[test]
fn undecodable_bodies_are_bad() {
    assert_eq!(prepare("data:image/jpeg;base64,@@@@").err(), Some(ImageError::BadPayload));
    assert_eq!(prepare("data:image/jpeg,notajpeg").err(), Some(ImageError::BadPayload));
    assert_eq!(prepare("data:image/png;base64,AAAA").err(), Some(ImageError::BadPayload));
    let jpeg_as_png = data_url("image/png", &jpeg_bytes(4, 4));
    assert_eq!(prepare(&jpeg_as_png).err(), Some(ImageError::BadPayload));
}

#[test]
fn jpeg_payload_decodes() {
    let image = prepare(&data_url("image/jpeg", &jpeg_bytes(20, 10))).unwrap();
    assert_eq!((image.width(), image.height()), (20, 10));
    assert_eq!(image.pixels().len(), 20 * 10 * 3);
}

#[test]
fn png_payload_decodes_exactly() {
    let image = prepare(&data_url("image/png", &png_bytes(7, 3))).unwrap();
    assert_eq!((image.width(), image.height()), (7, 3));
    assert_eq!(image.pixels(), &gradient(7, 3));
}

#[test]
fn subtype_is_matched_in_any_case() {
    let image = prepare(&data_url("IMAGE/PNG", &png_bytes(2, 2))).unwrap();
    assert_eq!((image.width(), image.height()), (2, 2));
}

fn base64(bytes: &[u8]) -> String {
    let table: Vec<char> =
        "ABCDEFGHIJKLMNOPQRSTUVWXYZabcdefghijklmnopqrstuvwxyz0123456789+/".chars().collect();
    let mut out = String::new();
    for chunk in bytes.chunks(3) {
        let b0 = chunk[0] as usize;
        let b1 = if chunk.len() > 1 { chunk[1] as usize } else { 0 };
        let b2 = if chunk.len() > 2 { chunk[2] as usize } else { 0 };
        out.push(table[b0 >> 2]);
        out.push(table[((b0 & 3) << 4) | (b1 >> 4)]);
        out.push(if chunk.len() > 1 { table[((b1 & 15) << 2) | (b2 >> 6)] } else { '=' });
        out.push(if chunk.len() > 2 { table[b2 & 63] } else { '=' });
    }
    out
}

#[test]
fn base64_payload_decodes() {
    let url = format!("data:image/png;base64,{}", base64(&png_bytes(5, 4)));
    let image = prepare(&url).unwrap();
    assert_eq!((image.width(), image.height()), (5, 4));
    assert_eq!(image.pixels(), &gradient(5, 4));
}

#[test]
fn codecs_by_subtype() {
    assert_eq!(codec_for("jpeg"), Ok(Codec::Jpeg));
    assert_eq!(codec_for("png"), Ok(Codec::Png));
    assert_eq!(codec_for("gif"), Err(ImageError::UnsupportedFormat));
    assert_eq!(codec_for("jpg"), Err(ImageError::UnsupportedFormat));
    assert_eq!(codec_for(""), Err(ImageError::UnsupportedFormat));
    assert!(same_text("abc", "abc"));
    assert!(!same_text("abc", "abd"));
    assert!(!same_text("abc", "ab"));
}

#[test]
fn pictures_without_area_are_empty() {
    assert_eq!(DecodedImage::from_rgb(0, 5, Vec::new()).err(), Some(ImageError::EmptyImage));
    assert_eq!(DecodedImage::from_rgb(5, 0, Vec::new()).err(), Some(ImageError::EmptyImage));
    assert_eq!(DecodedImage::from_rgb(0, 0, vec![1, 2, 3]).err(), Some(ImageError::EmptyImage));
}

#[test]
fn bytes_must_match_the_size() {
    assert_eq!(DecodedImage::from_rgb(2, 2, vec![0; 11]).err(), Some(ImageError::BadPayload));
    assert_eq!(DecodedImage::from_rgb(2, 2, vec![0; 13]).err(), Some(ImageError::BadPayload));
    let image = DecodedImage::from_rgb(2, 2, vec![7; 12]).unwrap();
    assert_eq!((image.width(), image.height()), (2, 2));
    assert_eq!(image.pixels(), &vec![7u8; 12]);
}

#[test]
fn four_zones_of_401_columns() {
    assert_eq!(zone_widths(401, 4), vec![100, 100, 100, 101]);
    assert_eq!(zone_span(401, 4, 0), (0, 100));
    assert_eq!(zone_span(401, 4, 1), (100, 100));
    assert_eq!(zone_span(401, 4, 2), (200, 100));
    assert_eq!(zone_span(401, 4, 3), (300, 101));
}

#[test]
fn zones_cover_the_image_without_gaps() {
    for width in [0u32, 1, 3, 4, 5, 7, 400, 401, 403, 1000, u32::MAX] {
        for zones in [1u8, 2, 3, 4, 5, 255] {
            let mut next: u64 = 0;
            for i in 0..zones {
                let (offset, w) = zone_span(width, zones, i);
                assert_eq!(offset as u64, next);
                next += w as u64;
            }
            assert_eq!(next, width as u64);
            let widths = zone_widths(width, zones);
            assert_eq!(widths.iter().map(|w| *w as u64).sum::<u64>(), width as u64);
        }
    }
    assert_eq!(zone_widths(3, 4), vec![0, 0, 0, 3]);
    assert_eq!(zone_widths(8, 4), vec![2, 2, 2, 2]);
    assert_eq!(zone_widths(9, 0), Vec::<u32>::new());
}

fn numbered(width: u32, height: u32) -> Vec<u8> {
    let mut pixels = Vec::new();
    for p in 0..(width * height) {
        pixels.push(p as u8);
        pixels.push(100 + p as u8);
        pixels.push(200 + p as u8);
    }
    pixels
}

fn pixel_order(bytes: &[u8]) -> Vec<u8> {
    bytes.chunks(3).map(|c| {
        assert_eq!(c[1], 100 + c[0]);
        assert_eq!(c[2], 200 + c[0]);
        c[0]
    }).collect()
}

fn turned(rotation: ImageRotation, mirror: ImageMirroring, ow: u32, oh: u32) -> Vec<u8> {
    let (iw, ih) = match rotation {
        ImageRotation::Rot90 | ImageRotation::Rot270 => (oh, ow),
        _ => (ow, oh),
    };
    let out = place_pixels(&numbered(iw, ih), &Placement::Turned { rotation, mirror }, iw, ih, ow, oh);
    pixel_order(&out)
}

#[test]
fn rotations_move_pixels_as_a_turn_does() {
    // source 3 wide, 2 high:  0 1 2 / 3 4 5
    assert_eq!(turned(ImageRotation::Rot0, ImageMirroring::Off, 3, 2), vec![0, 1, 2, 3, 4, 5]);
    assert_eq!(turned(ImageRotation::Rot180, ImageMirroring::Off, 3, 2), vec![5, 4, 3, 2, 1, 0]);
    // clockwise quarter turn: 2 wide, 3 high:  3 0 / 4 1 / 5 2
    assert_eq!(turned(ImageRotation::Rot90, ImageMirroring::Off, 2, 3), vec![3, 0, 4, 1, 5, 2]);
    // counter-clockwise:  2 5 / 1 4 / 0 3
    assert_eq!(turned(ImageRotation::Rot270, ImageMirroring::Off, 2, 3), vec![2, 5, 1, 4, 0, 3]);
}

#[test]
fn rotations_agree_with_the_image_crate() {
    let source = image::RgbImage::from_raw(3, 2, numbered(3, 2)).unwrap();
    let quarter = image::imageops::rotate90(&source);
    assert_eq!(pixel_order(quarter.as_raw()), turned(ImageRotation::Rot90, ImageMirroring::Off, 2, 3));
    let half = image::imageops::rotate180(&source);
    assert_eq!(pixel_order(half.as_raw()), turned(ImageRotation::Rot180, ImageMirroring::Off, 3, 2));
    let three = image::imageops::rotate270(&source);
    assert_eq!(pixel_order(three.as_raw()), turned(ImageRotation::Rot270, ImageMirroring::Off, 2, 3));
    let flipped = image::imageops::flip_horizontal(&source);
    assert_eq!(pixel_order(flipped.as_raw()), turned(ImageRotation::Rot0, ImageMirroring::X, 3, 2));
    let upside = image::imageops::flip_vertical(&source);
    assert_eq!(pixel_order(upside.as_raw()), turned(ImageRotation::Rot0, ImageMirroring::Y, 3, 2));
    let both = image::imageops::flip_vertical(&image::imageops::flip_horizontal(&quarter));
    assert_eq!(pixel_order(both.as_raw()), turned(ImageRotation::Rot90, ImageMirroring::Both, 2, 3));
}

#[test]
fn mirroring_flips_columns_or_rows() {
    assert_eq!(turned(ImageRotation::Rot0, ImageMirroring::X, 3, 2), vec![2, 1, 0, 5, 4, 3]);
    assert_eq!(turned(ImageRotation::Rot0, ImageMirroring::Y, 3, 2), vec![3, 4, 5, 0, 1, 2]);
    assert_eq!(turned(ImageRotation::Rot0, ImageMirroring::Both, 3, 2), vec![5, 4, 3, 2, 1, 0]);
    assert_eq!(turned(ImageRotation::Rot180, ImageMirroring::Both, 3, 2), vec![0, 1, 2, 3, 4, 5]);
}

#[test]
fn crop_takes_whole_columns() {
    // 4 wide, 2 high:  0 1 2 3 / 4 5 6 7
    let image = DecodedImage::from_rgb(4, 2, numbered(4, 2)).unwrap();
    let band = crop_columns(&image, 1, 2);
    assert_eq!((band.width(), band.height()), (2, 2));
    assert_eq!(pixel_order(band.pixels()), vec![1, 2, 5, 6]);
    let last = crop_columns(&image, 3, 1);
    assert_eq!(pixel_order(last.pixels()), vec![3, 7]);
    let all = crop_columns(&image, 0, 4);
    assert_eq!(all.pixels(), image.pixels());
}

#[test]
fn jpeg_of_the_tile_size_renders_to_one_bitmap_of_that_size() {
    for kind in [Kind::N4, Kind::Akp05] {
        let profile = kind.profile();
        let image = prepare(&data_url("image/jpeg", &jpeg_bytes(112, 112))).unwrap();
        let tiles = render(&image, &profile, RenderTarget::Position(LogicalPosition::Key(0)));
        assert_eq!(tiles.len(), 1);
        let (index, bitmap) = &tiles[0];
        assert_eq!(*index, 10);
        assert_eq!((bitmap.width, bitmap.height), (112, 112));
        assert_eq!(&bitmap.data[..2], &[0xFF, 0xD8]);
        assert_eq!(dimensions_of(&bitmap.data), (112, 112));
    }
}

#[test]
fn any_size_is_brought_to_the_tile_size() {
    let profile = Kind::N4.profile();
    let image = DecodedImage::from_rgb(10, 30, gradient(10, 30)).unwrap();
    let tiles = render(&image, &profile, RenderTarget::Position(LogicalPosition::Key(7)));
    assert_eq!(tiles.len(), 1);
    assert_eq!(tiles[0].0, 7);
    assert_eq!(dimensions_of(&tiles[0].1.data), (112, 112));
    let tiles = render(&image, &profile, RenderTarget::Position(LogicalPosition::Encoder(2)));
    assert_eq!(tiles.len(), 1);
    assert_eq!(tiles[0].0, 2);
    assert_eq!((tiles[0].1.width, tiles[0].1.height), (184, 120));
    assert_eq!(dimensions_of(&tiles[0].1.data), (184, 120));
}

#[test]
fn the_tile_is_the_picture_turned_upside_down() {
    // left half red, right half blue; after a half turn red is on the right
    let mut pixels = Vec::new();
    for _y in 0..112 {
        for x in 0..112 {
            if x < 56 {
                pixels.extend([255u8, 0, 0]);
            } else {
                pixels.extend([0u8, 0, 255]);
            }
        }
    }
    let image = DecodedImage::from_rgb(112, 112, pixels).unwrap();
    let bitmap = render_tile(&image, &Kind::N4.image_format()).unwrap();
    let shown = image::load_from_memory_with_format(&bitmap.data, image::ImageFormat::Jpeg)
        .unwrap()
        .into_rgb8();
    let left = shown.get_pixel(5, 56);
    let right = shown.get_pixel(106, 56);
    assert!(left[2] > 200 && left[0] < 60, "left is {:?}", left);
    assert!(right[0] > 200 && right[2] < 60, "right is {:?}", right);
}

#[test]
fn a_format_without_encoding_gives_an_empty_bitmap() {
    let image = DecodedImage::from_rgb(2, 2, vec![9; 12]).unwrap();
    let format = ImageFormat {
        mode: ImageMode::Off,
        width: 8,
        height: 4,
        rotation: ImageRotation::Rot0,
        mirror: ImageMirroring::Off,
    };
    let bitmap = render_tile(&image, &format).unwrap();
    assert_eq!((bitmap.width, bitmap.height), (8, 4));
    assert!(bitmap.data.is_empty());
}

#[test]
fn a_quarter_turned_format_keeps_its_size() {
    let image = DecodedImage::from_rgb(5, 5, gradient(5, 5)).unwrap();
    let format = ImageFormat {
        mode: ImageMode::JPEG,
        width: 16,
        height: 8,
        rotation: ImageRotation::Rot90,
        mirror: ImageMirroring::X,
    };
    let bitmap = render_tile(&image, &format).unwrap();
    assert_eq!((bitmap.width, bitmap.height), (16, 8));
    assert_eq!(dimensions_of(&bitmap.data), (16, 8));
}

#[test]
fn positions_outside_the_layout_render_nothing() {
    let profile = Kind::N4.profile();
    let image = DecodedImage::from_rgb(4, 4, gradient(4, 4)).unwrap();
    assert!(render(&image, &profile, RenderTarget::Position(LogicalPosition::Key(10))).is_empty());
    assert!(render(&image, &profile, RenderTarget::Position(LogicalPosition::Encoder(4))).is_empty());
}

#[test]
fn strip_is_split_among_the_zones() {
    let profile = Kind::N4.profile();
    let image = DecodedImage::from_rgb(401, 6, gradient(401, 6)).unwrap();
    let tiles = render(&image, &profile, RenderTarget::Strip);
    assert_eq!(tiles.len(), 4);
    for (z, (index, bitmap)) in tiles.iter().enumerate() {
        assert_eq!(*index as usize, z);
        assert_eq!((bitmap.width, bitmap.height), (184, 120));
        assert_eq!(dimensions_of(&bitmap.data), (184, 120));
    }
}

#[test]
fn strip_zones_without_width_are_skipped() {
    let profile = Kind::N4.profile();
    let image = DecodedImage::from_rgb(3, 2, gradient(3, 2)).unwrap();
    let tiles = render(&image, &profile, RenderTarget::Strip);
    assert_eq!(tiles.len(), 1);
    assert_eq!(tiles[0].0, 3);
    let image = DecodedImage::from_rgb(4, 2, gradient(4, 2)).unwrap();
    let tiles = render(&image, &profile, RenderTarget::Strip);
    let indices: Vec<u8> = tiles.iter().map(|t| t.0).collect();
    assert_eq!(indices, vec![0, 1, 2, 3]);
}

#[test]
fn strip_zone_shows_its_own_band() {
    // four bands of 10 columns: only the third is white
    let mut pixels = Vec::new();
    for _y in 0..8 {
        for x in 0..40 {
            let v = if (20..30).contains(&x) { 255u8 } else { 0u8 };
            pixels.extend([v, v, v]);
        }
    }
    let profile = Kind::N4.profile();
    let image = DecodedImage::from_rgb(40, 8, pixels).unwrap();
    let tiles = render(&image, &profile, RenderTarget::Strip);
    assert_eq!(tiles.len(), 4);
    for (index, bitmap) in &tiles {
        let shown = image::load_from_memory_with_format(&bitmap.data, image::ImageFormat::Jpeg)
            .unwrap()
            .into_rgb8();
        let centre = shown.get_pixel(92, 60)[0];
        if *index == 2 {
            assert!(centre > 200);
        } else {
            assert!(centre < 50);
        }
    }
}
