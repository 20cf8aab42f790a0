use backend::qrcode::{try_verify_qr_code, verify_qr_code, GreyImage};

fn read_grey(path: &str) -> Option<GreyImage> {
    image::open(path).ok().map(|img| {
        let luma = img.to_luma8();
        let (width, height) = (luma.width() as usize, luma.height() as usize);
        GreyImage { width, height, luma: luma.into_raw() }
    })
}

#[test]
fn test_qr_code_verification() {
    let filepath = "./tests/test_image2.jpg";
    let input_code = "123456789";
    let is_valid = verify_qr_code(read_grey(filepath), input_code.into());
    assert_eq!(is_valid, false);
}

#[test]
fn pixels_are_read_row_by_row() {
    let img = GreyImage { width: 3, height: 2, luma: vec![0, 1, 2, 3, 4, 5] };
    assert_eq!(img.pixel(0, 0), 0);
    assert_eq!(img.pixel(2, 0), 2);
    assert_eq!(img.pixel(1, 1), 4);
}

#[test]
fn images_without_a_single_code_are_refused() {
    assert_eq!(try_verify_qr_code(None, "123".to_string()), Some(false));
    let blank = GreyImage { width: 40, height: 40, luma: vec![255; 1600] };
    assert_eq!(try_verify_qr_code(Some(blank), "123".to_string()), None);
    let short = GreyImage { width: 4, height: 4, luma: vec![0; 15] };
    assert_eq!(try_verify_qr_code(Some(short), "123".to_string()), None);
}
