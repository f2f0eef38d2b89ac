use secure_photo_hub::models::api::{CreateAlbumMetadataApi, UploadPhotoMetadataApi};
use secure_photo_hub::models::image::{
    image_format_for_mime, ImageMetadata, ImageTransformOptions, ImageTransformation, UploadImage,
    UploadImageError,
};
use secure_photo_hub::models::pagination::Page;
use secure_photo_hub::models::{ImageFormat, ImageFormatEntity, Visibility, VisibilityApi};

#[test]
fn visibility_names_round_trip() {
    assert_eq!(Visibility::Public.as_str(), "Public");
    assert_eq!(Visibility::Private.as_str(), "Private");
    assert_eq!(Visibility::parse("Public"), Some(Visibility::Public));
    assert_eq!(Visibility::parse("Private"), Some(Visibility::Private));
    assert_eq!(Visibility::parse("public"), None);
    assert_eq!(Visibility::parse(""), None);
}

#[test]
fn visibility_converts_between_its_api_and_domain_forms() {
    assert_eq!(VisibilityApi::Public.to_visibility(), Visibility::Public);
    assert_eq!(VisibilityApi::Private.to_visibility(), Visibility::Private);
    assert_eq!(VisibilityApi::of_visibility(Visibility::Public), VisibilityApi::Public);
    assert_eq!(VisibilityApi::of_visibility(Visibility::Private), VisibilityApi::Private);
}

#[test]
fn image_format_round_trips_through_its_stored_form() {
    let formats = [
        ImageFormat::Png,
        ImageFormat::Jpeg,
        ImageFormat::Gif,
        ImageFormat::WebP,
        ImageFormat::Avif,
        ImageFormat::Pcx,
    ];
    for format in formats {
        assert_eq!(ImageFormatEntity::of_format(format).to_format(), format);
    }
    assert_eq!(ImageFormatEntity::of_format(ImageFormat::Png), ImageFormatEntity::Png);
}

#[test]
fn mime_types_map_to_supported_formats_only() {
    assert_eq!(image_format_for_mime("image", "jpeg"), Ok(ImageFormat::Jpeg));
    assert_eq!(image_format_for_mime("image", "png"), Ok(ImageFormat::Png));
    assert_eq!(image_format_for_mime("image", "gif"), Ok(ImageFormat::Gif));
    assert_eq!(
        image_format_for_mime("image", "webp"),
        Err(UploadImageError::UnsupportedMimeType)
    );
    assert_eq!(image_format_for_mime("text", "plain"), Err(UploadImageError::BadContentType));
}

#[test]
fn transformations_come_out_in_option_order() {
    let neither = ImageTransformOptions::new(None, None);
    assert!(neither.transformations().is_empty());
    let both = ImageTransformOptions::new(Some(90), Some((64, 48)));
    assert_eq!(
        both.transformations(),
        vec![ImageTransformation::HueRotate(90), ImageTransformation::Thumbnail(64, 48)]
    );
    let thumbnail_only = ImageTransformOptions::new(None, Some((10, 10)));
    assert_eq!(thumbnail_only.transformations(), vec![ImageTransformation::Thumbnail(10, 10)]);
}

#[test]
fn page_keeps_its_data_and_position() {
    let page = Page::new(vec![1u32, 2, 3], 2, 25);
    assert_eq!(page.data(), &vec![1, 2, 3]);
    assert_eq!(page.current_page(), 2);
    assert_eq!(page.per_page(), 25);
}

#[test]
fn upload_metadata_becomes_a_service_payload() {
    let image = UploadImage::new("cat.png", vec![1, 2, 3], ImageFormat::Png, 3);
    let metadata = UploadPhotoMetadataApi {
        title: "a cat".to_string(),
        album_id: None,
        description: "naps".to_string(),
        category: "pets".to_string(),
        tags: vec!["cat".to_string()],
        visibility: VisibilityApi::Public,
    };
    let upload = metadata.into_upload_photo(image.clone());
    assert_eq!(upload.title(), "a cat");
    assert_eq!(upload.visibility(), &Visibility::Public);
    assert_eq!(upload.upload_image(), &image);

    let album_metadata = CreateAlbumMetadataApi {
        title: "cats".to_string(),
        description: "all cats".to_string(),
        visibility: VisibilityApi::Private,
    };
    let create = album_metadata.into_create_album(image.clone());
    assert_eq!(create.title(), "cats");
    assert_eq!(create.visibility(), &Visibility::Private);
}

#[test]
fn image_metadata_reflects_its_upload() {
    let image = UploadImage::new("cat.png", vec![1, 2, 3], ImageFormat::Png, 3);
    let metadata = ImageMetadata::of_upload(&image, Visibility::Private);
    assert_eq!(metadata.filename, "cat.png");
    assert_eq!(metadata.format, ImageFormat::Png);
    assert_eq!(metadata.visibility, Visibility::Private);
    assert_eq!(metadata.size, 3);
}

#[test]
fn page_map_replaces_every_item_in_order() {
    let page = Page::new(vec![1u32, 2, 3], 4, 25);
    let doubled = page.map(|n: &u32| n * 2);
    assert_eq!(doubled.data(), &vec![2u32, 4, 6]);
    assert_eq!(doubled.current_page(), 4);
    assert_eq!(doubled.per_page(), 25);
    let named = page.map(|n: &u32| n.to_string());
    assert_eq!(named.data(), &vec!["1".to_string(), "2".to_string(), "3".to_string()]);
}
