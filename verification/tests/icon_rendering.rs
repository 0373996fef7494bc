use base64::Engine;
use waken_reporter::platform::image_bytes_to_png_data_url;
use waken_reporter::platform::linux::app_icon::image_path_to_data_url;

fn tiny_png() -> Vec<u8> {
    let image = image::RgbImage::from_pixel(2, 3, image::Rgb([200, 10, 10]));
    let mut bytes = Vec::new();
    image::DynamicImage::ImageRgb8(image)
        .write_to(&mut std::io::Cursor::new(&mut bytes), image::ImageFormat::Png)
        .unwrap();
    bytes
}

fn decoded_size(url: &str) -> (u32, u32) {
    let encoded = url.strip_prefix("data:image/png;base64,").expect("a PNG data URL");
    let bytes = base64::engine::general_purpose::STANDARD.decode(encoded).unwrap();
    let image = image::load_from_memory(&bytes).unwrap();
    (image.width(), image.height())
}

#[test]
fn raster_icons_become_256_pixel_pngs() {
    let url = image_bytes_to_png_data_url(&tiny_png()).expect("a decodable image");
    assert_eq!(decoded_size(&url), (256, 256));
}

#[test]
fn undecodable_bytes_give_no_png() {
    assert_eq!(image_bytes_to_png_data_url(&vec![1, 2, 3, 4]), None);
}

#[test]
fn raster_icon_files_are_resized_and_svg_files_kept() {
    let url = image_path_to_data_url("/icons/app.png", &tiny_png()).unwrap();
    assert_eq!(decoded_size(&url), (256, 256));
    let svg = image_path_to_data_url("/icons/app.svg", &b"<svg/>".to_vec()).unwrap();
    assert!(svg.starts_with("data:image/svg+xml;base64,"));
}
