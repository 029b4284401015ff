use disk_tidy::wechat_dat::{ImageFormat, WeChatDatDecoder};

#[test]
fn test_detect_xor_key_jpeg() {
    let jpeg_header = [0xFF, 0xD8, 0xFF, 0xE0, 0x00, 0x10, 0x4A, 0x46];
    let key = 0xAB;
    let encrypted: Vec<u8> = jpeg_header.iter().map(|&b| b ^ key).collect();

    let detected = WeChatDatDecoder::detect_xor_key(&encrypted);
    assert_eq!(detected, Some(key));
}

#[test]
fn test_detect_xor_key_png() {
    let png_header = [0x89, 0x50, 0x4E, 0x47, 0x0D, 0x0A, 0x1A, 0x0A];
    let key = 0x55;
    let encrypted: Vec<u8> = png_header.iter().map(|&b| b ^ key).collect();

    let detected = WeChatDatDecoder::detect_xor_key(&encrypted);
    assert_eq!(detected, Some(key));
}

#[test]
fn test_detect_image_format() {
    assert_eq!(
        WeChatDatDecoder::detect_image_format(&[0xFF, 0xD8, 0xFF]),
        ImageFormat::Jpeg
    );
    assert_eq!(
        WeChatDatDecoder::detect_image_format(&[0x89, 0x50, 0x4E, 0x47]),
        ImageFormat::Png
    );
    assert_eq!(
        WeChatDatDecoder::detect_image_format(&[0x47, 0x49, 0x46, 0x38]),
        ImageFormat::Gif
    );
    assert_eq!(
        WeChatDatDecoder::detect_image_format(&[0x42, 0x4D]),
        ImageFormat::Bmp
    );
}

#[test]
fn test_detect_xor_key_too_short() {
    let short = [0xFF, 0xD8, 0xFF];
    assert_eq!(WeChatDatDecoder::detect_xor_key(&short), None);
}

#[test]
fn test_analyze_and_decrypt_bytes() {
    let gif_header = [0x47, 0x49, 0x46, 0x38, 0x39, 0x61, 0x01, 0x00, 0x01, 0x00];
    let key = 0x3C;
    let encrypted: Vec<u8> = gif_header.iter().map(|&b| b ^ key).collect();

    let info = WeChatDatDecoder::analyze_dat_bytes(&encrypted, encrypted.len() as u64).unwrap();
    assert_eq!(info.xor_key, key);
    assert_eq!(info.original_format, ImageFormat::Gif);

    let (decrypted, format) =
        WeChatDatDecoder::decrypt_dat_bytes(&encrypted, encrypted.len() as u64).unwrap();
    assert_eq!(decrypted, gif_header.to_vec());
    assert_eq!(format, ImageFormat::Gif);
}

#[test]
fn test_analyze_rejects_small_files() {
    let gif_header = [0x47, 0x49, 0x46, 0x38, 0x39, 0x61, 0x01, 0x00];
    assert!(WeChatDatDecoder::analyze_dat_bytes(&gif_header.to_vec(), 8).is_none());
}

#[test]
fn test_is_dat_file() {
    assert!(WeChatDatDecoder::is_dat_file("C:\\images\\photo.DAT"));
    assert!(WeChatDatDecoder::is_dat_file("photo.dat"));
    assert!(!WeChatDatDecoder::is_dat_file("photo.jpg"));
    assert!(!WeChatDatDecoder::is_dat_file("dat"));
}

#[test]
fn test_format_names() {
    assert_eq!(ImageFormat::Jpeg.extension(), "jpg");
    assert_eq!(ImageFormat::WebP.mime_type(), "image/webp");
    assert_eq!(ImageFormat::Unknown.extension(), "dat");
    assert_eq!(ImageFormat::Unknown.mime_type(), "application/octet-stream");
}
