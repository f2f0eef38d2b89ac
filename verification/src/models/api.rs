//! The metadata halves of the multipart upload payloads, as the HTTP API
//! carries them beside the file part.

use vstd::prelude::*;

use crate::models::album::CreateAlbumWithCover;
use crate::models::image::UploadImage;
use crate::models::photo::UploadPhoto;
use crate::models::VisibilityApi;

verus! {

/// The metadata of a photo upload.
#[derive(Debug, Clone, PartialEq, Eq)]
pub struct UploadPhotoMetadataApi {
    pub title: String,
    pub album_id: Option<String>,
    pub description: String,
    pub category: String,
    pub tags: Vec<String>,
    pub visibility: VisibilityApi,
}

impl UploadPhotoMetadataApi {
    /// The upload this metadata describes, once the file part has become an
    /// image.
    pub fn into_upload_photo(self, upload_image: UploadImage) -> (r: UploadPhoto)
        ensures
            r.title@ == self.title@,
            r.album_id == self.album_id,
            r.description@ == self.description@,
            r.category@ == self.category@,
            r.tags@ == self.tags@,
            r.visibility == (match self.visibility {
                VisibilityApi::Public => crate::models::Visibility::Public,
                VisibilityApi::Private => crate::models::Visibility::Private,
            }),
            r.upload_image == upload_image,
    {
        let visibility = self.visibility.to_visibility();
        UploadPhoto {
            title: self.title,
            album_id: self.album_id,
            description: self.description,
            category: self.category,
            tags: self.tags,
            visibility,
            upload_image,
        }
    }
}

/// The metadata of an album creation.
#[derive(Debug, Clone, PartialEq, Eq)]
pub struct CreateAlbumMetadataApi {
    pub title: String,
    pub description: String,
    pub visibility: VisibilityApi,
}

impl CreateAlbumMetadataApi {
    /// The album creation this metadata describes, once the file part has
    /// become its cover image.
    pub fn into_create_album(self, upload_image: UploadImage) -> (r: CreateAlbumWithCover)
        ensures
            r.title@ == self.title@,
            r.description@ == self.description@,
            r.visibility == (match self.visibility {
                VisibilityApi::Public => crate::models::Visibility::Public,
                VisibilityApi::Private => crate::models::Visibility::Private,
            }),
            r.upload_image == upload_image,
    {
        let visibility = self.visibility.to_visibility();
        CreateAlbumWithCover { title: self.title, description: self.description, visibility, upload_image }
    }
}

} // verus!
