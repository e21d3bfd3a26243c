use photo_editor::api::cartoon_gan;
use photo_editor::api::get_edges;
use photo_editor::api::photo_from_rgba;
use photo_editor::api::photo_to_base64;
use photo_editor::api::set_img_bytes;
use photo_editor::api::sharpen_image;
use photo_editor::api::to_emboss;
use photo_editor::api::to_grayscale;
use photo_editor::api::to_monochrome;
use photo_editor::api::to_oceanblue;
use photo_editor::api::to_purple;
use photo_editor::api::to_threshold;
use photo_editor::api::with_data_url_prefix;
use photo_editor::api::CodecError;
use photo_editor::convolutions::edge_detection;
use photo_editor::convolutions::emboss;
use photo_editor::convolutions::sharpen;
use photo_editor::filters::bw_threshold;
use photo_editor::filters::grayscale;
use photo_editor::filters::monochrome;
use photo_editor::filters::ChannelOffset;
use photo_editor::filters::TintPresets;
use photo_editor::photo::Photo;

const PREFIX: &str = "data:image/png;base64,";

const TWO_PIXELS_PNG: &str =
    "iVBORw0KGgoAAAANSUhEUgAAAAIAAAABCAYAAAD0In+KAAAAEUlEQVR4nGPgEpH7fyLlVwMADVQD4sejWYMAAAAASUVORK5CYII=";

const RGB_COLUMN_PNG: &str =
    "iVBORw0KGgoAAAANSUhEUgAAAAEAAAACCAIAAAAW4yFwAAAAEElEQVR4nGNgZGJmYGFlAwAARgAWd/XIfwAAAABJRU5ErkJggg==";

fn sample() -> Photo {
    let pixels: Vec<u8> = (0..4 * 4 * 4u32).map(|v| (v * 11 % 253) as u8).collect();
    Photo::new(pixels, 4, 4).unwrap()
}

fn read_back(url: &str) -> Photo {
    assert!(url.starts_with(PREFIX));
    set_img_bytes(&url[PREFIX.len()..]).unwrap()
}

#[test]
fn set_img_bytes_reads_rgba_png() {
    let p = set_img_bytes(TWO_PIXELS_PNG).unwrap();
    assert_eq!((p.width, p.height), (2, 1));
    assert_eq!(p.pixels, vec![10, 20, 30, 255, 200, 100, 250, 128]);
}

#[test]
fn set_img_bytes_widens_rgb_to_rgba() {
    let p = set_img_bytes(RGB_COLUMN_PNG).unwrap();
    assert_eq!((p.width, p.height), (1, 2));
    assert_eq!(p.pixels, vec![1, 2, 3, 255, 4, 5, 6, 255]);
}

#[test]
fn set_img_bytes_rejects_text_that_is_not_base64() {
    assert_eq!(set_img_bytes("***"), Err(CodecError::Base64));
    assert_eq!(set_img_bytes("aGVsbG8gd29ybGQ$"), Err(CodecError::Base64));
}

#[test]
fn set_img_bytes_rejects_bytes_that_are_no_image() {
    assert_eq!(set_img_bytes("aGVsbG8gd29ybGQ="), Err(CodecError::Image));
    assert_eq!(set_img_bytes(""), Err(CodecError::Image));
}

#[test]
fn photo_from_rgba_checks_geometry() {
    assert_eq!(photo_from_rgba(vec![1, 2, 3], 1, 1), Err(CodecError::Geometry));
    assert_eq!(photo_from_rgba(vec![], 0, 0), Err(CodecError::Geometry));
    assert_eq!(photo_from_rgba(vec![0; 8], 1, 1), Err(CodecError::Geometry));
    let p = photo_from_rgba(vec![1, 2, 3, 4], 1, 1).unwrap();
    assert_eq!(p, Photo { pixels: vec![1, 2, 3, 4], width: 1, height: 1 });
}

#[test]
fn with_data_url_prefix_prepends_header() {
    assert_eq!(with_data_url_prefix("QUJD"), "data:image/png;base64,QUJD");
    assert_eq!(with_data_url_prefix(""), "data:image/png;base64,");
}

#[test]
fn photo_to_base64_writes_a_png_data_url() {
    let url = photo_to_base64(&sample()).unwrap();
    assert!(url.starts_with(PREFIX));
    let text = &url[PREFIX.len()..];
    assert!(!text.contains('\r') && !text.contains('\n'));
    let file = base64::decode(text).unwrap();
    assert_eq!(&file[..8], &[0x89, b'P', b'N', b'G', 0x0d, 0x0a, 0x1a, 0x0a]);
    assert_eq!(read_back(&url), sample());
}

#[test]
fn photo_to_base64_is_repeatable() {
    assert_eq!(photo_to_base64(&sample()), photo_to_base64(&sample()));
}

#[test]
fn photo_to_base64_reports_refused_image() {
    let empty = Photo { pixels: vec![], width: 0, height: 0 };
    assert_eq!(photo_to_base64(&empty), Err(CodecError::Encoding));
}

#[test]
fn exports_carry_the_transformed_photo() {
    let presets = TintPresets {
        ocean_blue: ChannelOffset { r_offset: 0, g_offset: 0, b_offset: 60 },
        purple: ChannelOffset { r_offset: 40, g_offset: 0, b_offset: 50 },
    };
    let source = sample();

    let mut want = sample();
    grayscale(&mut want);
    assert_eq!(read_back(&to_grayscale(&source).unwrap()), want);

    let mut want = sample();
    monochrome(&mut want, 10, 20, 30);
    assert_eq!(read_back(&to_monochrome(&source, 10, 20, 30).unwrap()), want);

    let mut want = sample();
    edge_detection(&mut want);
    assert_eq!(read_back(&get_edges(&source).unwrap()), want);

    let mut want = sample();
    sharpen(&mut want);
    assert_eq!(read_back(&sharpen_image(&source).unwrap()), want);

    let mut want = sample();
    emboss(&mut want);
    assert_eq!(read_back(&to_emboss(&source).unwrap()), want);

    let mut want = sample();
    bw_threshold(&mut want);
    assert_eq!(read_back(&to_threshold(&source).unwrap()), want);

    let mut want = sample();
    monochrome(&mut want, 0, 0, 60);
    assert_eq!(read_back(&to_oceanblue(&source, &presets).unwrap()), want);

    let mut want = sample();
    monochrome(&mut want, 40, 0, 50);
    assert_eq!(read_back(&to_purple(&source, &presets).unwrap()), want);

    assert_eq!(read_back(&cartoon_gan(&source).unwrap()), source);
    assert_eq!(source, sample());
}
