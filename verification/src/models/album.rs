//! Album values: the stored album, the payloads that create and update one.

use vstd::prelude::*;

use crate::models::image::UploadImage;
use crate::models::{ImageFormat, Visibility};

verus! {

/// A stored album and its metadata.
#[derive(Debug, Clone, PartialEq, Eq)]
pub struct Album {
    pub id: String,
    pub title: String,
    pub description: String,
    pub visibility: Visibility,
    pub owner_user_id: String,
    pub cover_image_id: String,
    pub cover_image_url: String,
    pub created_at: u64,
}

impl Album {
    pub fn new(
        id: String,
        title: String,
        description: String,
        visibility: Visibility,
        owner_user_id: String,
        cover_image_id: String,
        cover_image_url: String,
        created_at: u64,
    ) -> (r: Album)
        ensures
            r == (Album {
                id,
                title,
                description,
                visibility,
                owner_user_id,
                cover_image_id,
                cover_image_url,
                created_at,
            }),
    {
        Album {
            id,
            title,
            description,
            visibility,
            owner_user_id,
            cover_image_id,
            cover_image_url,
            created_at,
        }
    }

    pub fn id(&self) -> (r: &String)
        ensures
            r@ == self.id@,
    {
        &self.id
    }

    pub fn title(&self) -> (r: &str)
        ensures
            r@ == self.title@,
    {
        self.title.as_str()
    }

    pub fn description(&self) -> (r: &str)
        ensures
            r@ == self.description@,
    {
        self.description.as_str()
    }

    pub fn visibility(&self) -> (r: &Visibility)
        ensures
            r == self.visibility,
    {
        &self.visibility
    }

    pub fn owner_user_id(&self) -> (r: &String)
        ensures
            r@ == self.owner_user_id@,
    {
        &self.owner_user_id
    }

    pub fn cover_image_id(&self) -> (r: &String)
        ensures
            r@ == self.cover_image_id@,
    {
        &self.cover_image_id
    }

    pub fn created_at(&self) -> (r: u64)
        ensures
            r == self.created_at,
    {
        self.created_at
    }

    pub fn cover_image_url(&self) -> (r: &String)
        ensures
            r@ == self.cover_image_url@,
    {
        &self.cover_image_url
    }
}

/// A new album together with the upload that becomes its cover image.
#[derive(Debug, Clone, PartialEq, Eq)]
pub struct CreateAlbumWithCover {
    pub title: String,
    pub description: String,
    pub visibility: Visibility,
    pub upload_image: UploadImage,
}

impl CreateAlbumWithCover {
    pub fn new(
        title: String,
        description: String,
        visibility: Visibility,
        upload_image: UploadImage,
    ) -> (r: CreateAlbumWithCover)
        ensures
            r == (CreateAlbumWithCover { title, description, visibility, upload_image }),
    {
        CreateAlbumWithCover { title, description, visibility, upload_image }
    }

    pub fn title(&self) -> (r: &str)
        ensures
            r@ == self.title@,
    {
        self.title.as_str()
    }

    pub fn description(&self) -> (r: &str)
        ensures
            r@ == self.description@,
    {
        self.description.as_str()
    }

    pub fn visibility(&self) -> (r: &Visibility)
        ensures
            r == self.visibility,
    {
        &self.visibility
    }

    pub fn upload_image(&self) -> (r: &UploadImage)
        ensures
            r == self.upload_image,
    {
        &self.upload_image
    }
}

/// Everything needed to write a new album row once its cover is stored.
#[derive(Debug, Clone, PartialEq, Eq)]
pub struct CreateAlbum {
    pub title: String,
    pub description: String,
    pub visibility: Visibility,
    pub owner_user_id: String,
    pub cover_image_id: String,
    pub cover_image_url: String,
    pub cover_image_reference_url: String,
    pub cover_image_size: u64,
    pub cover_image_format: ImageFormat,
}

impl CreateAlbum {
    pub fn new(
        title: String,
        description: String,
        visibility: Visibility,
        owner_user_id: String,
        cover_image_id: String,
        cover_image_url: String,
        cover_image_reference_url: String,
        cover_image_size: u64,
        cover_image_format: ImageFormat,
    ) -> (r: CreateAlbum)
        ensures
            r == (CreateAlbum {
                title,
                description,
                visibility,
                owner_user_id,
                cover_image_id,
                cover_image_url,
                cover_image_reference_url,
                cover_image_size,
                cover_image_format,
            }),
    {
        CreateAlbum {
            title,
            description,
            visibility,
            owner_user_id,
            cover_image_id,
            cover_image_url,
            cover_image_reference_url,
            cover_image_size,
            cover_image_format,
        }
    }

    pub fn title(&self) -> (r: &str)
        ensures
            r@ == self.title@,
    {
        self.title.as_str()
    }

    pub fn description(&self) -> (r: &str)
        ensures
            r@ == self.description@,
    {
        self.description.as_str()
    }

    pub fn visibility(&self) -> (r: &Visibility)
        ensures
            r == self.visibility,
    {
        &self.visibility
    }

    pub fn owner_user_id(&self) -> (r: &String)
        ensures
            r@ == self.owner_user_id@,
    {
        &self.owner_user_id
    }

    pub fn cover_image_id(&self) -> (r: &String)
        ensures
            r@ == self.cover_image_id@,
    {
        &self.cover_image_id
    }

    pub fn cover_image_url(&self) -> (r: &String)
        ensures
            r@ == self.cover_image_url@,
    {
        &self.cover_image_url
    }

    pub fn cover_image_reference_url(&self) -> (r: &String)
        ensures
            r@ == self.cover_image_reference_url@,
    {
        &self.cover_image_reference_url
    }

    pub fn cover_image_size(&self) -> (r: u64)
        ensures
            r == self.cover_image_size,
    {
        self.cover_image_size
    }

    pub fn cover_image_format(&self) -> (r: &ImageFormat)
        ensures
            r == self.cover_image_format,
    {
        &self.cover_image_format
    }
}

/// An album update: only the fields that are present change.
#[derive(Debug, Clone, PartialEq, Eq)]
pub struct UpdateAlbum {
    pub id: String,
    pub title: Option<String>,
    pub visibility: Option<Visibility>,
}

impl UpdateAlbum {
    pub fn new(id: &String, title: Option<&String>, visibility: Option<&Visibility>) -> (r:
        UpdateAlbum)
        ensures
            r.id@ == id@,
            r.title is Some <==> title is Some,
            title matches Some(t0) ==> (r.title matches Some(t) && t@ == t0@),
            r.visibility == (match visibility {
                Some(v0) => Some(*v0),
                None => None::<Visibility>,
            }),
    {
        UpdateAlbum {
            id: id.clone(),
            title: match title {
                Some(t) => Some(t.clone()),
                None => None,
            },
            visibility: match visibility {
                Some(v) => Some(*v),
                None => None,
            },
        }
    }

    pub fn id(&self) -> (r: &String)
        ensures
            r@ == self.id@,
    {
        &self.id
    }

    pub fn title(&self) -> (r: &Option<String>)
        ensures
            r == self.title,
    {
        &self.title
    }

    pub fn visibility(&self) -> (r: Option<Visibility>)
        ensures
            r == self.visibility,
    {
        self.visibility
    }
}

} // verus!
