use smart_passport::metadata::{
    create_collection_metadata, create_nft_metadata, PLACEHOLDER_COLLECTION_IMAGE_URI, PLACEHOLDER_IMAGE_URI,
};
use smart_passport::model::Address;
use smart_passport::registry::{add_manufacturer, create_passport, initialize, ErrorCode, ManufacturerList};
use smart_passport::requests::TransactionResponse;
use smart_passport::upload::{ImageError, UploadService};

#[test]
fn passport_metadata_lists_product_attributes() {
    let m = create_nft_metadata("SN-1", "2024-01-01", "X100", "24 months", "UA", "M-7", Some("Line A"));
    assert_eq!(m.name, "X100");
    assert_eq!(m.symbol, "SPP");
    assert_eq!(m.description, "Smart Product Passport for X100");
    assert_eq!(m.image, PLACEHOLDER_IMAGE_URI);
    let pairs: Vec<(String, String)> = m.attributes.iter().map(|a| (a.trait_type.clone(), a.value.clone())).collect();
    assert_eq!(
        pairs,
        vec![
            ("Serial Number".to_string(), "SN-1".to_string()),
            ("Production Date".to_string(), "2024-01-01".to_string()),
            ("Device Model".to_string(), "X100".to_string()),
            ("Warranty Period".to_string(), "24 months".to_string()),
            ("Country of Origin".to_string(), "UA".to_string()),
            ("Manufacturer ID".to_string(), "M-7".to_string()),
            ("Collection".to_string(), "Line A".to_string()),
        ]
    );
    assert_eq!(m.properties.files.len(), 1);
    assert_eq!(m.properties.files[0].file_type, "image/png");
    assert_eq!(m.properties.category, "image");
    let plain = create_nft_metadata("a", "b", "c", "d", "e", "f", None);
    assert_eq!(plain.attributes.len(), 6);
}

#[test]
fn collection_metadata_has_fixed_attributes() {
    let c = create_collection_metadata("Line A", "LNA", "All of line A");
    assert_eq!(c.name, "Line A");
    assert_eq!(c.symbol, "LNA");
    assert_eq!(c.description, "All of line A");
    assert_eq!(c.image, PLACEHOLDER_COLLECTION_IMAGE_URI);
    assert_eq!(c.attributes.len(), 2);
    assert_eq!(c.attributes[0].trait_type, "Type");
    assert_eq!(c.attributes[1].value, "Smart Product Passport");
}

#[test]
fn image_formats_are_recognized() {
    let s = UploadService::with_url("https://node1.bundlr.network".to_string());
    assert_eq!(s.bundlr_url(), "https://node1.bundlr.network");
    assert_eq!(s.validate_image(&[]), Err(ImageError::Empty));
    assert_eq!(s.validate_image(&[0x89, 0x50, 0x4E, 0x47, 0x0D, 0x0A, 0x1A, 0x0A, 0]), Ok(()));
    assert_eq!(s.validate_image(&[0xFF, 0xD8, 0xFF, 0xE0, 0, 0, 0, 0]), Ok(()));
    assert_eq!(s.validate_image(b"GIF89a\x01\x00"), Ok(()));
    assert_eq!(s.validate_image(b"GIF87a\x01\x00"), Ok(()));
    assert_eq!(s.validate_image(b"RIFF\x10\x00\x00\x00WEBPVP8 "), Ok(()));
    assert_eq!(s.validate_image(b"RIFF\x10\x00\x00\x00WAVE"), Err(ImageError::UnsupportedFormat));
    assert_eq!(s.validate_image(b"RIFF\x10\x00\x00"), Err(ImageError::UnsupportedFormat));
    assert_eq!(s.validate_image(&[0xFF, 0xD8, 0xFF]), Err(ImageError::UnsupportedFormat));
    assert_eq!(s.validate_image(b"plain text"), Err(ImageError::UnsupportedFormat));
}

#[test]
fn file_extensions_and_content_types() {
    let s = UploadService::with_url(String::new());
    assert_eq!(s.get_file_extension("photo.final.PNG"), Some("PNG"));
    assert_eq!(s.get_file_extension("archive.tar.gz"), Some("gz"));
    assert_eq!(s.get_file_extension("README"), Some("README"));
    assert_eq!(s.get_file_extension("trailing."), Some(""));
    assert_eq!(s.get_content_type("nft-image.png"), "image/png");
    assert_eq!(s.get_content_type("a.jpg"), "image/jpeg");
    assert_eq!(s.get_content_type("a.jpeg"), "image/jpeg");
    assert_eq!(s.get_content_type("a.gif"), "image/gif");
    assert_eq!(s.get_content_type("a.webp"), "image/webp");
    assert_eq!(s.get_content_type("a.svg"), "image/svg+xml");
    assert_eq!(s.get_content_type("a.PNG"), "application/octet-stream");
    assert_eq!(s.get_content_type("noext"), "application/octet-stream");
}

#[test]
fn manufacturers_are_registered_once() {
    let mut list = ManufacturerList { manufacturers: Vec::new() };
    initialize(&mut list);
    assert!(add_manufacturer(&mut list, Address([1u8; 32]), "Acme".to_string()).is_ok());
    assert!(add_manufacturer(&mut list, Address([2u8; 32]), "Globex".to_string()).is_ok());
    assert_eq!(
        add_manufacturer(&mut list, Address([1u8; 32]), "Acme again".to_string()),
        Err(ErrorCode::ManufacturerAlreadyExists)
    );
    assert_eq!(list.manufacturers.len(), 2);
    assert_eq!(list.manufacturers[0].name, "Acme");
    assert_eq!(ErrorCode::ManufacturerAlreadyExists.message(), "Manufacturer already exists in the list");
    initialize(&mut list);
    assert!(list.manufacturers.is_empty());
}

#[test]
fn passport_record_keeps_its_fields() {
    let p = create_passport(
        "SN".to_string(), "2024".to_string(), "X".to_string(), "1y".to_string(), "UA".to_string(),
        "M".to_string(), "cid".to_string(), Address([3u8; 32]),
    );
    assert_eq!(p.serial_number, "SN");
    assert_eq!(p.ipfs_cid, "cid");
    assert_eq!(p.owner, Address([3u8; 32]));
}

#[test]
fn transaction_responses() {
    let ok = TransactionResponse::with_transaction("tx".to_string(), "sign it".to_string());
    assert!(ok.success);
    assert_eq!(ok.transaction.as_deref(), Some("tx"));
    let err = TransactionResponse::with_error("boom".to_string());
    assert!(!err.success);
    assert_eq!(err.error.as_deref(), Some("boom"));
}
