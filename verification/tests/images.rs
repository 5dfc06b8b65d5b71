use commerce::images::ImageService;
use commerce::Code;

fn service() -> ImageService {
    ImageService::new("https://img.example.com/".to_string(), 16)
}

#[test]
fn image_urls() {
    let s = service();
    assert_eq!(s.get_image_url(&"a/b".to_string()), "https://img.example.com/a/b");
    assert_eq!(
        s.get_opt_image_url(Some("x".to_string())),
        Some("https://img.example.com/x".to_string())
    );
    assert_eq!(s.get_opt_image_url(None), None);
}

#[test]
fn validate_image_accepts_png_jpeg_and_jpeg2000() {
    let s = service();
    assert!(s.validate_image(&[0x89, 0x50, 0x4E, 0x47, 0, 0]).is_ok());
    assert!(s.validate_image(&[0xFF, 0xD8, 0xFF, 0xE0]).is_ok());
    let jp2 = [0x0, 0x0, 0x0, 0xC, 0x6A, 0x50, 0x20, 0x20, 0xD, 0xA, 0x87, 0xA, 0x0, 0x1];
    assert!(s.validate_image(&jp2).is_ok());
}

#[test]
fn validate_image_refuses_other_kinds_and_large_images() {
    let s = service();
    let err = s.validate_image(&[0x47, 0x49, 0x46, 0x38]).unwrap_err();
    assert_eq!(err.code, Code::InvalidArgument);
    assert_eq!(err.message, "image");
    let mut big = vec![0x89, 0x50, 0x4E, 0x47];
    big.resize(16, 0);
    let err = s.validate_image(&big).unwrap_err();
    assert_eq!(err.code, Code::ResourceExhausted);
    assert_eq!(err.message, "image");
}

#[test]
fn decode_base64_images() {
    assert_eq!(ImageService::decode_base64(&"iVBORw==".to_string()).unwrap(), vec![0x89, 0x50, 0x4E, 0x47]);
    let err = ImageService::decode_base64(&"not base64!".to_string()).unwrap_err();
    assert_eq!(err.code, Code::InvalidArgument);
    assert_eq!(err.message, "image");
}
