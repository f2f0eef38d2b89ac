//! Image values: stored references, uploads arriving over HTTP, loaded
//! bytes, and the transformations a caller may ask for.

use vstd::prelude::*;

use crate::models::{ImageFormat, Visibility};

verus! {

/// A stored image's coordinates: where its bytes live and what they are.
#[derive(Debug, Clone, PartialEq, Eq)]
pub struct ImageReference {
    pub id: String,
    pub owner_user_id: String,
    pub url: String,
    pub size: u64,
    pub visibility: Visibility,
    pub format: ImageFormat,
}

impl ImageReference {
    pub fn new(
        id: &str,
        owner_user_id: &str,
        url: &str,
        size: u64,
        format: &ImageFormat,
        visibility: &Visibility,
    ) -> (r: ImageReference)
        ensures
            r.id@ == id@,
            r.owner_user_id@ == owner_user_id@,
            r.url@ == url@,
            r.size == size,
            r.format == format,
            r.visibility == visibility,
    {
        ImageReference {
            id: id.to_owned(),
            owner_user_id: owner_user_id.to_owned(),
            url: url.to_owned(),
            size,
            visibility: *visibility,
            format: *format,
        }
    }

    pub fn id(&self) -> (r: &String)
        ensures
            r@ == self.id@,
    {
        &self.id
    }

    pub fn url(&self) -> (r: &String)
        ensures
            r@ == self.url@,
    {
        &self.url
    }

    pub fn size(&self) -> (r: u64)
        ensures
            r == self.size,
    {
        self.size
    }

    pub fn format(&self) -> (r: ImageFormat)
        ensures
            r == self.format,
    {
        self.format
    }

    pub fn visibility(&self) -> (r: Visibility)
        ensures
            r == self.visibility,
    {
        self.visibility
    }

    pub fn owner_user_id(&self) -> (r: &String)
        ensures
            r@ == self.owner_user_id@,
    {
        &self.owner_user_id
    }
}

/// The ways an uploaded file can fail to become an image.
#[derive(Debug, Clone, Eq, PartialEq, Structural)]
pub enum UploadImageError {
    MissingContentType,
    BadContentType,
    UnsupportedMimeType,
    CorruptedImage,
    InvalidAlbum,
}

/// An image as it arrives in a multipart upload.
#[derive(Debug, Clone, PartialEq, Eq)]
pub struct UploadImage {
    pub filename: String,
    pub bytes: Vec<u8>,
    pub format: ImageFormat,
    pub size: usize,
}

impl UploadImage {
    pub fn new(filename: &str, bytes: Vec<u8>, format: ImageFormat, size: usize) -> (r:
        UploadImage)
        ensures
            r.filename@ == filename@,
            r.bytes@ == bytes@,
            r.format == format,
            r.size == size,
    {
        UploadImage { filename: filename.to_owned(), bytes, format, size }
    }

    pub fn bytes(&self) -> (r: &Vec<u8>)
        ensures
            r@ == self.bytes@,
    {
        &self.bytes
    }

    pub fn format(&self) -> (r: ImageFormat)
        ensures
            r == self.format,
    {
        self.format
    }

    pub fn size(&self) -> (r: usize)
        ensures
            r == self.size,
    {
        self.size
    }

    pub fn filename(&self) -> (r: &str)
        ensures
            r@ == self.filename@,
    {
        self.filename.as_str()
    }
}

/// The image format a multipart content type announces: only image types are
/// accepted, and of those only the formats the pipeline can decode.
pub fn image_format_for_mime(top: &str, subtype: &str) -> (r: Result<ImageFormat, UploadImageError>)
    ensures
        top@ != "image"@ ==> r == Err::<ImageFormat, UploadImageError>(
            UploadImageError::BadContentType,
        ),
        top@ == "image"@ && subtype@ == "jpeg"@ ==> r == Ok::<ImageFormat, UploadImageError>(
            ImageFormat::Jpeg,
        ),
        top@ == "image"@ && subtype@ == "png"@ ==> r == Ok::<ImageFormat, UploadImageError>(
            ImageFormat::Png,
        ),
        top@ == "image"@ && subtype@ == "gif"@ ==> r == Ok::<ImageFormat, UploadImageError>(
            ImageFormat::Gif,
        ),
        top@ == "image"@ && subtype@ != "jpeg"@ && subtype@ != "png"@ && subtype@ != "gif"@ ==> r
            == Err::<ImageFormat, UploadImageError>(UploadImageError::UnsupportedMimeType),
{
    proof {
        reveal_strlit("jpeg");
        reveal_strlit("png");
        reveal_strlit("gif");
        assert("jpeg"@.len() == 4);
        assert("png"@.len() == 3);
        assert("gif"@.len() == 3);
        assert("png"@[0] == 'p');
        assert("gif"@[0] == 'g');
        assert("png"@ != "gif"@);
    }
    if !crate::text::text_eq(top, "image") {
        return Err(UploadImageError::BadContentType);
    }
    if crate::text::text_eq(subtype, "jpeg") {
        Ok(ImageFormat::Jpeg)
    } else if crate::text::text_eq(subtype, "png") {
        Ok(ImageFormat::Png)
    } else if crate::text::text_eq(subtype, "gif") {
        Ok(ImageFormat::Gif)
    } else {
        Err(UploadImageError::UnsupportedMimeType)
    }
}

/// An image loaded in memory.
#[derive(Debug, Clone, PartialEq, Eq)]
pub struct Image {
    pub id: String,
    pub filename: String,
    pub format: ImageFormat,
    pub bytes: Vec<u8>,
    pub size: u32,
}

impl Image {
    pub fn new(id: &str, filename: &str, format: &ImageFormat, bytes: Vec<u8>, size: u32) -> (r:
        Image)
        ensures
            r.id@ == id@,
            r.filename@ == filename@,
            r.format == format,
            r.bytes@ == bytes@,
            r.size == size,
    {
        Image {
            id: id.to_owned(),
            filename: filename.to_owned(),
            format: *format,
            bytes,
            size,
        }
    }

    pub fn id(&self) -> (r: &String)
        ensures
            r@ == self.id@,
    {
        &self.id
    }

    pub fn format(&self) -> (r: ImageFormat)
        ensures
            r == self.format,
    {
        self.format
    }

    pub fn bytes(&self) -> (r: &Vec<u8>)
        ensures
            r@ == self.bytes@,
    {
        &self.bytes
    }

    pub fn size(&self) -> (r: u32)
        ensures
            r == self.size,
    {
        self.size
    }

    pub fn take_bytes(self) -> (r: Vec<u8>)
        ensures
            r@ == self.bytes@,
    {
        self.bytes
    }

    pub fn filename(&self) -> (r: &str)
        ensures
            r@ == self.filename@,
    {
        self.filename.as_str()
    }
}

/// One transformation step applied to an image.
#[derive(Debug, Clone, Copy, PartialEq, Eq, Structural)]
pub enum ImageTransformation {
    HueRotate(i32),
    Thumbnail(u32, u32),
    Identity,
}

/// The transformations a request asks for, at most one of each kind.
#[derive(Debug, Clone, PartialEq, Eq)]
pub struct ImageTransformOptions {
    pub huerotate: Option<i32>,
    pub thumbnail: Option<(u32, u32)>,
}

/// The transformation steps that a set of options calls for, hue rotation
/// first.
pub open spec fn spec_transformations(options: ImageTransformOptions) -> Seq<ImageTransformation> {
    (match options.huerotate {
        Some(value) => seq![ImageTransformation::HueRotate(value)],
        None => Seq::<ImageTransformation>::empty(),
    }) + (match options.thumbnail {
        Some((width, height)) => seq![ImageTransformation::Thumbnail(width, height)],
        None => Seq::<ImageTransformation>::empty(),
    })
}

impl ImageTransformOptions {
    pub fn new(huerotate: Option<i32>, thumbnail: Option<(u32, u32)>) -> (r: ImageTransformOptions)
        ensures
            r.huerotate == huerotate,
            r.thumbnail == thumbnail,
    {
        ImageTransformOptions { huerotate, thumbnail }
    }

    /// The transformation steps these options call for.
    pub fn transformations(&self) -> (r: Vec<ImageTransformation>)
        ensures
            r@ == spec_transformations(*self),
    {
        let mut transformations: Vec<ImageTransformation> = Vec::new();
        if let Some(huerotate) = self.huerotate {
            transformations.push(ImageTransformation::HueRotate(huerotate));
        }
        if let Some((nwidth, nheight)) = self.thumbnail {
            transformations.push(ImageTransformation::Thumbnail(nwidth, nheight));
        }
        proof {
            assert(transformations@ =~= spec_transformations(*self));
        }
        transformations
    }
}

/// The transformations as the HTTP API carries them.
#[derive(Debug, Clone, PartialEq, Eq)]
pub struct ImageTransformOptionsApi {
    pub huerotate: Option<i32>,
    pub thumbnail: Option<(u32, u32)>,
}

impl ImageTransformOptionsApi {
    /// The domain options of the API options.
    pub fn to_options(&self) -> (r: ImageTransformOptions)
        ensures
            r.huerotate == self.huerotate,
            r.thumbnail == self.thumbnail,
    {
        ImageTransformOptions::new(self.huerotate, self.thumbnail)
    }
}

/// What the object store keeps beside an image's bytes.
#[derive(Debug, Clone, PartialEq, Eq)]
pub struct ImageMetadata {
    pub filename: String,
    pub format: ImageFormat,
    pub visibility: Visibility,
    pub size: usize,
}

impl ImageMetadata {
    /// The metadata of an upload, once its visibility is decided.
    pub fn of_upload(upload_image: &UploadImage, visibility: Visibility) -> (r: ImageMetadata)
        ensures
            r.filename@ == upload_image.filename@,
            r.format == upload_image.format,
            r.visibility == visibility,
            r.size == upload_image.size,
    {
        ImageMetadata {
            filename: upload_image.filename.clone(),
            format: upload_image.format,
            visibility,
            size: upload_image.size,
        }
    }
}

} // verus!
