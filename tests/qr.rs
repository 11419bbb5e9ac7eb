use sshbot::link::{sagernet_link_generator, LinkError};
use sshbot::qr::{
    encode_qr_code_to_image_bytes, qr_image_from_matrix, qr_modules, QrMatrix, DARK, LIGHT,
};

fn decode_png(png: &[u8]) -> image::RgbImage {
    image::load_from_memory(png).expect("a PNG stream").to_rgb8()
}

#[test]
fn qr_of_link_is_bounded_square_png() {
    let link = sagernet_link_generator("1.2.3.4", 443, "user001", "pass0001", "US", "2024-01-01")
        .unwrap();
    let img = encode_qr_code_to_image_bytes(&link).unwrap();
    assert!(img.width > 0 && img.width <= 550);
    assert_eq!(img.width, img.height);
    assert_eq!(&img.png[..8], b"\x89PNG\r\n\x1a\n");
    let decoded = decode_png(&img.png);
    assert_eq!(decoded.width(), img.width);
    assert_eq!(decoded.height(), img.height);
    assert_eq!(decoded.get_pixel(0, 0).0, LIGHT);
}

#[test]
fn qr_of_short_text() {
    let img = encode_qr_code_to_image_bytes("a").unwrap();
    // version 1: 21 modules and 8 of quiet zone, 18 pixels each
    assert_eq!(img.width, 522);
    assert_eq!(img.height, 522);
}

#[test]
fn qr_of_largest_payload_fits() {
    let text = "x".repeat(2331);
    let img = encode_qr_code_to_image_bytes(&text).unwrap();
    // version 40: 177 modules and 8 of quiet zone, 2 pixels each
    assert_eq!(img.width, 370);
    assert_eq!(img.height, 370);
}

#[test]
fn qr_refuses_oversized_payload() {
    let text = "x".repeat(5000);
    assert_eq!(
        encode_qr_code_to_image_bytes(&text).err(),
        Some(LinkError::PayloadTooLarge)
    );
}

#[test]
fn matrix_renders_scaled_and_colored() {
    let width = 21usize;
    let mut dark = vec![false; width * width];
    dark[0] = true;
    let m = QrMatrix { width, dark };
    let img = qr_image_from_matrix(&m).unwrap();
    assert_eq!(img.width, 522);
    let decoded = decode_png(&img.png);
    // the first module starts after four quiet-zone modules of 18 pixels
    assert_eq!(decoded.get_pixel(72, 72).0, DARK);
    assert_eq!(decoded.get_pixel(89, 89).0, DARK);
    assert_eq!(decoded.get_pixel(90, 72).0, LIGHT);
    assert_eq!(decoded.get_pixel(71, 71).0, LIGHT);
}

#[test]
fn qr_refuses_one_byte_over_capacity() {
    let text = "x".repeat(2332);
    assert_eq!(
        encode_qr_code_to_image_bytes(&text).err(),
        Some(LinkError::PayloadTooLarge)
    );
    assert!(qr_modules(&text).is_none());
}

#[test]
fn qr_picks_smallest_version() {
    let m = qr_modules("a").unwrap();
    assert_eq!(m.width, 21);
    assert_eq!(m.dark.len(), 21 * 21);
    // version 1 at medium level holds 14 bytes, version 2 holds 26
    assert_eq!(qr_modules(&"y".repeat(14)).unwrap().width, 21);
    assert_eq!(qr_modules(&"y".repeat(15)).unwrap().width, 25);
    assert_eq!(qr_modules(&"z".repeat(2331)).unwrap().width, 177);
}

#[test]
fn qr_matrix_has_finder_pattern() {
    let m = qr_modules("sn://ssh?abc").unwrap();
    // the top-left finder pattern: a dark 7x7 ring
    for i in 0..7 {
        assert!(m.dark[i]);
        assert!(m.dark[i * m.width]);
    }
    assert!(!m.dark[m.width + 1]);
}

#[test]
fn qr_image_is_deterministic() {
    let a = encode_qr_code_to_image_bytes("sn://ssh?abc").unwrap();
    let b = encode_qr_code_to_image_bytes("sn://ssh?abc").unwrap();
    assert_eq!(a.png, b.png);
    assert_eq!((a.width, a.height), (b.width, b.height));
}
