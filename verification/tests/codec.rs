use batch_transcode::encoder::finish_webp;
use batch_transcode::{
    encode, encode_webp, get_image_metadata, get_parent_directory, greet, home_or_error,
    Container, DecodedImage, ErrorKind, ImageToSave, OutputFormat, PixelLayout,
};

fn pattern(width: u32, height: u32) -> image::RgbaImage {
    image::RgbaImage::from_fn(width, height, |x, y| {
        image::Rgba([(x * 37 % 256) as u8, (y * 59 % 256) as u8, ((x * y + 11) % 256) as u8, 255])
    })
}

fn file_of(img: image::DynamicImage, format: image::ImageFormat) -> Vec<u8> {
    let mut out = std::io::Cursor::new(Vec::new());
    img.write_to(&mut out, format).unwrap();
    out.into_inner()
}

fn png(width: u32, height: u32) -> Vec<u8> {
    file_of(image::DynamicImage::ImageRgba8(pattern(width, height)), image::ImageFormat::Png)
}

fn job(width: u32, height: u32, quality: u8) -> ImageToSave {
    ImageToSave {
        path: String::from("in/a.png"),
        destination_path: String::from("out/a.png"),
        target_width: width,
        target_height: height,
        output_format: OutputFormat::Png,
        quality,
    }
}

#[test]
fn valid_job_is_accepted() {
    assert!(job(1, 1, 1).validate().is_ok());
    assert!(job(640, 480, 100).validate().is_ok());
}

#[test]
fn zero_width_is_a_configuration_error() {
    let error = job(0, 10, 80).validate().unwrap_err();
    assert_eq!(error.kind, ErrorKind::Config);
    assert_eq!(error.message, "target width and height must be greater than zero");
    assert_eq!(error.describe(), "target width and height must be greater than zero");
}

#[test]
fn zero_height_is_a_configuration_error() {
    let error = job(10, 0, 80).validate().unwrap_err();
    assert_eq!(error.kind, ErrorKind::Config);
    assert_eq!(error.message, "target width and height must be greater than zero");
}

#[test]
fn quality_outside_range_is_a_configuration_error() {
    for quality in [0u8, 101, 255] {
        let error = job(10, 10, quality).validate().unwrap_err();
        assert_eq!(error.kind, ErrorKind::Config);
        assert_eq!(error.message, "quality must be between 1 and 100");
    }
}

#[test]
fn zero_dimension_is_reported_before_quality() {
    let error = job(0, 0, 0).validate().unwrap_err();
    assert_eq!(error.message, "target width and height must be greater than zero");
}

#[test]
fn decode_reads_size_and_layout() {
    let img = DecodedImage::decode("photo.png", &png(7, 5)).unwrap();
    assert_eq!(img.width(), 7);
    assert_eq!(img.height(), 5);
    assert_eq!(img.layout(), PixelLayout::Rgba8);
    assert_eq!(img.layout().bytes_per_pixel(), 4);
}

#[test]
fn decode_keeps_the_layout_of_the_source() {
    let gray = image::DynamicImage::ImageLuma8(image::GrayImage::from_fn(3, 2, |x, y| {
        image::Luma([(x * 40 + y) as u8])
    }));
    let img = DecodedImage::decode("g.png", &file_of(gray, image::ImageFormat::Png)).unwrap();
    assert_eq!(img.layout(), PixelLayout::L8);
    let rgb = image::DynamicImage::ImageRgb16(image::ImageBuffer::from_fn(2, 2, |x, y| {
        image::Rgb([x as u16 * 1000, y as u16 * 2000, 65535])
    }));
    let img = DecodedImage::decode("deep.PNG", &file_of(rgb, image::ImageFormat::Png)).unwrap();
    assert_eq!(img.layout(), PixelLayout::Rgb16);
    assert_eq!(img.layout().bytes_per_pixel(), 6);
}

#[test]
fn decode_goes_by_the_extension() {
    let bytes = png(4, 4);
    assert_eq!(DecodedImage::decode("a.jpg", &bytes).unwrap_err().kind, ErrorKind::Decode);
    assert_eq!(DecodedImage::decode("a", &bytes).unwrap_err().kind, ErrorKind::Decode);
    assert_eq!(DecodedImage::decode("a.txt", &bytes).unwrap_err().kind, ErrorKind::Decode);
}

#[test]
fn decode_rejects_what_is_no_image() {
    let error = DecodedImage::decode("a.png", b"not an image").unwrap_err();
    assert_eq!(error.kind, ErrorKind::Decode);
    assert!(!error.message.is_empty());
    assert_eq!(DecodedImage::decode("a.png", &[]).unwrap_err().kind, ErrorKind::Decode);
}

#[test]
fn resize_gives_exactly_the_size_asked_for() {
    let img = DecodedImage::decode("a.png", &png(8, 6)).unwrap();
    for (width, height) in [(1u32, 1u32), (3, 17), (16, 12), (8, 6), (40, 2)] {
        let out = img.resize_exact(width, height).unwrap();
        assert_eq!((out.width(), out.height()), (width, height));
        assert_eq!(out.layout(), PixelLayout::Rgba8);
    }
}

#[test]
fn resize_resamples_as_the_lanczos_filter_does() {
    let img = DecodedImage::decode("a.png", &png(8, 6)).unwrap();
    let out = img.resize_exact(5, 9).unwrap();
    let expected = image::imageops::resize(
        &pattern(8, 6),
        5,
        9,
        image::imageops::FilterType::Lanczos3,
    );
    assert_eq!(out.to_rgba8(), expected.into_raw());
}

#[test]
fn resize_rejects_a_zero_side() {
    let img = DecodedImage::decode("a.png", &png(8, 6)).unwrap();
    for (width, height) in [(0u32, 5u32), (5, 0), (0, 0)] {
        let error = img.resize_exact(width, height).unwrap_err();
        assert_eq!(error.kind, ErrorKind::Config);
        assert_eq!(error.message, "target width and height must be greater than zero");
    }
}

#[test]
fn resize_rejects_what_no_buffer_can_hold() {
    let img = DecodedImage::decode("a.png", &png(8, 6)).unwrap();
    let error = img.resize_exact(u32::MAX, u32::MAX).unwrap_err();
    assert_eq!(error.kind, ErrorKind::Config);
    assert_eq!(error.message, "target dimensions are too large to resample");
}

#[test]
fn encode_writes_the_container_of_the_extension() {
    let img = DecodedImage::decode("a.png", &png(8, 6)).unwrap().resize_exact(12, 10).unwrap();
    for format in [OutputFormat::KeepOriginal, OutputFormat::Png, OutputFormat::Jpeg] {
        let file = encode(&img, "out/b.png", format, 80).unwrap();
        assert_eq!(image::guess_format(&file).unwrap(), image::ImageFormat::Png);
        let back = image::load_from_memory(&file).unwrap();
        assert_eq!((back.width(), back.height()), (12, 10));
        let file = encode(&img, "out/b.jpg", format, 80).unwrap();
        assert_eq!(image::guess_format(&file).unwrap(), image::ImageFormat::Jpeg);
        let back = image::load_from_memory(&file).unwrap();
        assert_eq!((back.width(), back.height()), (12, 10));
    }
}

#[test]
fn encode_to_png_loses_nothing() {
    let img = DecodedImage::decode("a.png", &png(8, 6)).unwrap();
    let file = img.encode_for_path("copy.png").unwrap();
    let back = image::load_from_memory(&file).unwrap();
    assert_eq!(back.to_rgba8(), pattern(8, 6));
}

#[test]
fn encode_ignores_quality_outside_webp() {
    let img = DecodedImage::decode("a.png", &png(8, 6)).unwrap();
    let low = encode(&img, "b.jpg", OutputFormat::Jpeg, 1).unwrap();
    let high = encode(&img, "b.jpg", OutputFormat::Jpeg, 100).unwrap();
    assert_eq!(low, high);
}

#[test]
fn encode_fails_on_an_unknown_extension() {
    let img = DecodedImage::decode("a.png", &png(8, 6)).unwrap();
    for destination in ["out/b", "out/b.xyz", ""] {
        let error = encode(&img, destination, OutputFormat::Png, 80).unwrap_err();
        assert_eq!(error.kind, ErrorKind::Encode);
    }
}

#[test]
fn webp_at_100_is_lossless() {
    let img = DecodedImage::decode("a.png", &png(9, 7)).unwrap();
    let file = encode(&img, "out/b.webp", OutputFormat::Webp, 100).unwrap();
    let back = webp::Decoder::new(&file).decode().unwrap().to_image();
    assert_eq!((back.width(), back.height()), (9, 7));
    assert_eq!(back.to_rgba8(), pattern(9, 7));
}

#[test]
fn webp_at_100_is_what_the_lossless_encoder_writes() {
    let img = DecodedImage::decode("a.png", &png(9, 7)).unwrap();
    let file = encode_webp(&img, 100).unwrap();
    let raw = pattern(9, 7).into_raw();
    let expected = webp::Encoder::from_rgba(&raw, 9, 7).encode_lossless();
    assert_eq!(file, expected.to_vec());
}

#[test]
fn webp_below_100_is_lossy_at_that_quality() {
    let img = DecodedImage::decode("a.png", &png(32, 32)).unwrap();
    let raw = pattern(32, 32).into_raw();
    for quality in [1u8, 50, 99] {
        let file = encode_webp(&img, quality).unwrap();
        let expected = webp::Encoder::from_rgba(&raw, 32, 32).encode(quality as f32);
        assert_eq!(file, expected.to_vec());
    }
    assert_ne!(encode_webp(&img, 99).unwrap(), encode_webp(&img, 100).unwrap());
}

fn grainy(width: u32, height: u32) -> Vec<u8> {
    let mut seed: u32 = 12345;
    let img = image::RgbImage::from_fn(width, height, |x, y| {
        seed = seed.wrapping_mul(1664525).wrapping_add(1013904223);
        let grain = (seed >> 24) % 48;
        let base = x * 2 + y;
        image::Rgb([((base + grain) % 256) as u8, ((base / 2 + grain) % 256) as u8, (grain * 3) as u8])
    });
    file_of(image::DynamicImage::ImageRgb8(img), image::ImageFormat::Png)
}

#[test]
fn webp_at_99_is_no_larger_than_at_100() {
    let img = DecodedImage::decode("a.png", &grainy(64, 48)).unwrap();
    let lossy = encode_webp(&img, 99).unwrap();
    let lossless = encode_webp(&img, 100).unwrap();
    assert!(lossy.len() <= lossless.len());
}

#[test]
fn webp_takes_the_destination_for_nothing() {
    let img = DecodedImage::decode("a.png", &png(8, 8)).unwrap();
    let a = encode(&img, "out/b.png", OutputFormat::Webp, 80).unwrap();
    let b = encode(&img, "", OutputFormat::Webp, 80).unwrap();
    assert_eq!(a, b);
    assert_eq!(image::guess_format(&a).unwrap(), image::ImageFormat::WebP);
}

#[test]
fn webp_rejects_a_quality_outside_range() {
    let img = DecodedImage::decode("a.png", &png(8, 8)).unwrap();
    for quality in [0u8, 101, 200] {
        let error = encode_webp(&img, quality).unwrap_err();
        assert_eq!(error.kind, ErrorKind::Config);
        assert_eq!(error.message, "quality must be between 1 and 100");
    }
}

#[test]
fn webp_rejects_a_side_over_its_limit() {
    let img = DecodedImage::decode("a.png", &png(4, 1)).unwrap();
    let wide = img.resize_exact(16384, 1).unwrap();
    let error = encode_webp(&wide, 80).unwrap_err();
    assert_eq!(error.kind, ErrorKind::Encode);
    assert_eq!(error.message, "WebP takes images from 1 to 16383 pixels a side");
    let widest = img.resize_exact(16383, 1).unwrap();
    assert!(encode_webp(&widest, 80).is_ok());
}

#[test]
fn encoder_failure_is_an_encode_error() {
    let failed = Err(webp::WebPEncodingError::VP8_ENC_ERROR_OUT_OF_MEMORY);
    let error = finish_webp(failed).unwrap_err();
    assert_eq!(error.kind, ErrorKind::Encode);
    assert_eq!(error.message, "the WebP encoder could not encode the image");
    assert_eq!(finish_webp(Ok(vec![1, 2, 3])).unwrap(), [1, 2, 3]);
}

#[test]
fn layouts_know_their_pixel_size() {
    let sizes = [
        (PixelLayout::L8, 1),
        (PixelLayout::La8, 2),
        (PixelLayout::Rgb8, 3),
        (PixelLayout::Rgba8, 4),
        (PixelLayout::L16, 2),
        (PixelLayout::La16, 4),
        (PixelLayout::Rgb16, 6),
        (PixelLayout::Rgba16, 8),
        (PixelLayout::Rgb32F, 12),
        (PixelLayout::Rgba32F, 16),
    ];
    for (layout, size) in sizes {
        assert_eq!(layout.bytes_per_pixel(), size);
    }
}

#[test]
fn metadata_gives_size_in_pixels_and_bytes() {
    let bytes = png(11, 3);
    let data = get_image_metadata("x/y.png", &bytes).unwrap();
    assert_eq!(data.width, 11);
    assert_eq!(data.height, 3);
    assert_eq!(data.size, bytes.len() as u64);
}

#[test]
fn metadata_fails_where_decoding_fails() {
    let error = get_image_metadata("x/y.png", b"nothing").unwrap_err();
    assert_eq!(error.kind, ErrorKind::Decode);
}

#[test]
fn greet_names_the_guest() {
    assert_eq!(greet("Ada"), "Hello, Ada! You've been greeted from Rust!");
    assert_eq!(greet(""), "Hello, ! You've been greeted from Rust!");
}

#[test]
fn containers_are_read_by_their_extension() {
    let source = image::DynamicImage::ImageRgba8(pattern(5, 4));
    let named = [
        ("a.png", image::ImageFormat::Png),
        ("a.JPG", image::ImageFormat::Jpeg),
        ("a.jpeg", image::ImageFormat::Jpeg),
        ("a.gif", image::ImageFormat::Gif),
        ("a.webp", image::ImageFormat::WebP),
        ("a.ppm", image::ImageFormat::Pnm),
        ("a.tiff", image::ImageFormat::Tiff),
        ("a.tga", image::ImageFormat::Tga),
        ("a.bmp", image::ImageFormat::Bmp),
        ("a.ico", image::ImageFormat::Ico),
        ("a.qoi", image::ImageFormat::Qoi),
    ];
    for (path, format) in named {
        let img = DecodedImage::decode(path, &file_of(source.clone(), format)).unwrap();
        assert_eq!((img.width(), img.height()), (5, 4), "{}", path);
    }
}

#[test]
fn containers_are_written_by_their_extension() {
    let img = DecodedImage::decode("a.png", &png(6, 3)).unwrap();
    let named = [
        ("b.png", image::ImageFormat::Png),
        ("b.jpg", image::ImageFormat::Jpeg),
        ("b.gif", image::ImageFormat::Gif),
        ("b.webp", image::ImageFormat::WebP),
        ("b.pam", image::ImageFormat::Pnm),
        ("b.tif", image::ImageFormat::Tiff),
        ("b.tga", image::ImageFormat::Tga),
        ("b.bmp", image::ImageFormat::Bmp),
        ("b.ico", image::ImageFormat::Ico),
        ("b.qoi", image::ImageFormat::Qoi),
    ];
    for (path, format) in named {
        let file = img.encode_for_path(path).unwrap();
        let back = image::load_from_memory_with_format(&file, format).unwrap();
        assert_eq!((back.width(), back.height()), (6, 3), "{}", path);
    }
}

fn deep(width: u32, height: u32) -> Vec<u8> {
    let img = image::Rgb32FImage::from_fn(width, height, |x, y| {
        image::Rgb([x as f32 / 8.0, y as f32 / 8.0, 0.5])
    });
    file_of(image::DynamicImage::ImageRgb32F(img), image::ImageFormat::OpenExr)
}

#[test]
fn deep_grids_are_written_as_openexr_and_hdr() {
    let img = DecodedImage::decode("a.exr", &deep(6, 3)).unwrap();
    assert_eq!(img.layout(), PixelLayout::Rgb32F);
    let named = [("b.exr", image::ImageFormat::OpenExr), ("b.hdr", image::ImageFormat::Hdr)];
    for (path, format) in named {
        let file = img.encode_for_path(path).unwrap();
        let back = image::load_from_memory_with_format(&file, format).unwrap();
        assert_eq!((back.width(), back.height()), (6, 3), "{}", path);
    }
}

#[test]
fn sixteen_bit_grids_are_written_as_farbfeld() {
    let source = image::ImageBuffer::from_fn(4, 2, |x, y| {
        image::Rgba([x as u16 * 9000, y as u16 * 30000, 77, 65535])
    });
    let bytes = file_of(image::DynamicImage::ImageRgba16(source), image::ImageFormat::Farbfeld);
    let img = DecodedImage::decode("a.ff", &bytes).unwrap();
    assert_eq!(img.layout(), PixelLayout::Rgba16);
    assert_eq!(img.encode_for_path("b.ff").unwrap(), bytes);
}

#[test]
fn a_grid_that_the_container_cannot_hold_is_an_encode_error() {
    let img = DecodedImage::decode("a.png", &png(6, 3)).unwrap();
    assert_eq!(img.encode_for_path("b.exr").unwrap_err().kind, ErrorKind::Encode);
    assert_eq!(img.encode_for_path("b.hdr").unwrap_err().kind, ErrorKind::Encode);
}

#[test]
fn a_container_without_an_encoder_is_an_encode_error() {
    let img = DecodedImage::decode("a.png", &png(6, 3)).unwrap();
    assert_eq!(img.encode_for_path("b.dds").unwrap_err().kind, ErrorKind::Encode);
}

#[test]
fn avif_is_written_as_avif() {
    let img = DecodedImage::decode("a.png", &png(8, 8)).unwrap();
    let file = img.encode_for_path("b.avif").unwrap();
    assert_eq!(image::guess_format(&file).unwrap(), image::ImageFormat::Avif);
}

#[test]
fn only_avif_and_openexr_are_free_in_their_bytes() {
    let all = [
        Container::Png,
        Container::Jpeg,
        Container::Gif,
        Container::WebP,
        Container::Pnm,
        Container::Tiff,
        Container::Tga,
        Container::Dds,
        Container::Bmp,
        Container::Ico,
        Container::Hdr,
        Container::OpenExr,
        Container::Farbfeld,
        Container::Avif,
        Container::Qoi,
    ];
    for container in all {
        let free = container == Container::Avif || container == Container::OpenExr;
        assert_eq!(container.reproducible(), !free);
    }
}

#[test]
fn reproducible_containers_give_the_same_bytes_again() {
    let img = DecodedImage::decode("a.png", &png(9, 5)).unwrap();
    for path in ["b.png", "b.jpg", "b.gif", "b.webp", "b.tiff", "b.bmp", "b.qoi", "b.tga"] {
        assert_eq!(img.encode_for_path(path).unwrap(), img.encode_for_path(path).unwrap());
    }
}

#[test]
fn parent_is_the_path_without_its_last_part() {
    assert_eq!(get_parent_directory("/home/me/pictures/a.png").unwrap(), "/home/me/pictures");
    assert_eq!(get_parent_directory("/home/me/").unwrap(), "/home");
    assert_eq!(get_parent_directory("a/b").unwrap(), "a");
    assert_eq!(get_parent_directory("a.png").unwrap(), "");
    assert_eq!(get_parent_directory("/a").unwrap(), "/");
}

#[test]
fn a_path_without_a_parent_is_an_error() {
    assert_eq!(get_parent_directory("").unwrap_err(), "No parent directory");
    assert_eq!(get_parent_directory("/").unwrap_err(), "No parent directory");
}

#[test]
fn parent_is_found_in_the_text_alone() {
    let path = "/no/such/place/../file.png";
    let parent = get_parent_directory(path).unwrap();
    assert_eq!(parent, "/no/such/place/..");
    assert!(path.starts_with(&parent) && parent.len() < path.len());
    assert_eq!(get_parent_directory(path).unwrap(), parent);
}

#[test]
fn home_is_handed_on_or_reported_missing() {
    assert_eq!(home_or_error(Some(String::from("/home/me"))).unwrap(), "/home/me");
    assert_eq!(home_or_error(None).unwrap_err(), "Could not determine home directory");
}
