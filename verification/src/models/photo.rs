//! Photo values: the stored photo, the payloads that create and update one.

use vstd::prelude::*;

use crate::models::image::{ImageReference, UploadImage};
use crate::models::{ImageFormat, Visibility};

verus! {

/// A stored photo and its metadata.
#[derive(Debug, Clone, PartialEq, Eq)]
pub struct Photo {
    pub id: String,
    pub title: String,
    pub description: String,
    pub category: String,
    pub tags: Vec<String>,
    pub owner_user_id: String,
    pub album_id: Option<String>,
    pub visibility: Visibility,
    pub image: ImageReference,
    pub created_at: u64,
}

impl Photo {
    pub fn new(
        id: String,
        title: String,
        description: String,
        category: String,
        tags: Vec<String>,
        owner_user_id: String,
        album_id: Option<String>,
        visibility: Visibility,
        image: ImageReference,
        created_at: u64,
    ) -> (r: Photo)
        ensures
            r == (Photo {
                id,
                title,
                description,
                category,
                tags,
                owner_user_id,
                album_id,
                visibility,
                image,
                created_at,
            }),
    {
        Photo {
            id,
            title,
            description,
            category,
            tags,
            owner_user_id,
            album_id,
            visibility,
            image,
            created_at,
        }
    }

    pub fn id(&self) -> (r: &String)
        ensures
            r@ == self.id@,
    {
        &self.id
    }

    pub fn title(&self) -> (r: &str)
        ensures
            r@ == self.title@,
    {
        self.title.as_str()
    }

    pub fn description(&self) -> (r: &str)
        ensures
            r@ == self.description@,
    {
        self.description.as_str()
    }

    pub fn category(&self) -> (r: &str)
        ensures
            r@ == self.category@,
    {
        self.category.as_str()
    }

    pub fn tags(&self) -> (r: &Vec<String>)
        ensures
            r@ == self.tags@,
    {
        &self.tags
    }

    pub fn owner_user_id(&self) -> (r: &String)
        ensures
            r@ == self.owner_user_id@,
    {
        &self.owner_user_id
    }

    pub fn album_id(&self) -> (r: &Option<String>)
        ensures
            r == self.album_id,
    {
        &self.album_id
    }

    pub fn visibility(&self) -> (r: &Visibility)
        ensures
            r == self.visibility,
    {
        &self.visibility
    }

    pub fn image(&self) -> (r: &ImageReference)
        ensures
            r == self.image,
    {
        &self.image
    }

    pub fn created_at(&self) -> (r: u64)
        ensures
            r == self.created_at,
    {
        self.created_at
    }
}

/// A photo update: only the fields that are present change.
#[derive(Debug, Clone, PartialEq, Eq)]
pub struct UpdatePhoto {
    pub id: String,
    pub title: Option<String>,
    pub album_id: Option<String>,
    pub visibility: Option<Visibility>,
}

impl UpdatePhoto {
    pub fn new(
        id: &String,
        title: Option<&String>,
        album_id: Option<&String>,
        visibility: Option<&Visibility>,
    ) -> (r: UpdatePhoto)
        ensures
            r.id@ == id@,
            r.title is Some <==> title is Some,
            title matches Some(t0) ==> (r.title matches Some(t) && t@ == t0@),
            r.album_id is Some <==> album_id is Some,
            album_id matches Some(a0) ==> (r.album_id matches Some(a) && a@ == a0@),
            r.visibility == (match visibility {
                Some(v0) => Some(*v0),
                None => None::<Visibility>,
            }),
    {
        UpdatePhoto {
            id: id.clone(),
            title: match title {
                Some(t) => Some(t.clone()),
                None => None,
            },
            album_id: match album_id {
                Some(a) => Some(a.clone()),
                None => None,
            },
            visibility: match visibility {
                Some(v) => Some(*v),
                None => None,
            },
        }
    }

    pub fn id(&self) -> (r: &String)
        ensures
            r@ == self.id@,
    {
        &self.id
    }

    pub fn title(&self) -> (r: &Option<String>)
        ensures
            r == self.title,
    {
        &self.title
    }

    pub fn album_id(&self) -> (r: &Option<String>)
        ensures
            r == self.album_id,
    {
        &self.album_id
    }

    pub fn visibility(&self) -> (r: Option<Visibility>)
        ensures
            r == self.visibility,
    {
        self.visibility
    }
}

/// Everything needed to write a new photo row.
#[derive(Debug, Clone, PartialEq, Eq)]
pub struct CreatePhoto {
    pub title: String,
    pub description: String,
    pub category: String,
    pub tags: Vec<String>,
    pub owner_user_id: String,
    pub image_id: String,
    pub album_id: Option<String>,
    pub visibility: Visibility,
    pub image_url: String,
    pub image_size: u64,
    pub image_format: ImageFormat,
}

impl CreatePhoto {
    pub fn new(
        title: &str,
        description: &str,
        category: &str,
        tags: &Vec<String>,
        owner_user_id: &String,
        image_id: &String,
        album_id: &Option<String>,
        visibility: &Visibility,
        url: &String,
        size: u64,
        format: &ImageFormat,
    ) -> (r: CreatePhoto)
        ensures
            r.title@ == title@,
            r.description@ == description@,
            r.category@ == category@,
            r.tags@ == tags@,
            r.owner_user_id@ == owner_user_id@,
            r.image_id@ == image_id@,
            r.album_id == album_id,
            r.visibility == visibility,
            r.image_url@ == url@,
            r.image_size == size,
            r.image_format == format,
    {
        CreatePhoto {
            title: title.to_owned(),
            description: description.to_owned(),
            category: category.to_owned(),
            tags: tags.clone(),
            owner_user_id: owner_user_id.clone(),
            image_id: image_id.clone(),
            album_id: album_id.clone(),
            visibility: *visibility,
            image_url: url.clone(),
            image_size: size,
            image_format: *format,
        }
    }

    pub fn title(&self) -> (r: &str)
        ensures
            r@ == self.title@,
    {
        self.title.as_str()
    }

    pub fn description(&self) -> (r: &str)
        ensures
            r@ == self.description@,
    {
        self.description.as_str()
    }

    pub fn category(&self) -> (r: &str)
        ensures
            r@ == self.category@,
    {
        self.category.as_str()
    }

    pub fn tags(&self) -> (r: &Vec<String>)
        ensures
            r@ == self.tags@,
    {
        &self.tags
    }

    pub fn owner_user_id(&self) -> (r: &String)
        ensures
            r@ == self.owner_user_id@,
    {
        &self.owner_user_id
    }

    pub fn album_id(&self) -> (r: &Option<String>)
        ensures
            r == self.album_id,
    {
        &self.album_id
    }

    pub fn visibility(&self) -> (r: &Visibility)
        ensures
            r == self.visibility,
    {
        &self.visibility
    }

    pub fn image_url(&self) -> (r: &String)
        ensures
            r@ == self.image_url@,
    {
        &self.image_url
    }

    pub fn image_size(&self) -> (r: u64)
        ensures
            r == self.image_size,
    {
        self.image_size
    }

    pub fn image_format(&self) -> (r: &ImageFormat)
        ensures
            r == self.image_format,
    {
        &self.image_format
    }

    pub fn image_id(&self) -> (r: &String)
        ensures
            r@ == self.image_id@,
    {
        &self.image_id
    }
}

/// A photo upload as it arrives over HTTP, image bytes included.
#[derive(Debug, Clone, PartialEq, Eq)]
pub struct UploadPhoto {
    pub title: String,
    pub album_id: Option<String>,
    pub description: String,
    pub category: String,
    pub tags: Vec<String>,
    pub visibility: Visibility,
    pub upload_image: UploadImage,
}

impl UploadPhoto {
    pub fn new(
        title: String,
        album_id: Option<String>,
        description: String,
        category: String,
        tags: Vec<String>,
        visibility: Visibility,
        upload_image: UploadImage,
    ) -> (r: UploadPhoto)
        ensures
            r == (UploadPhoto {
                title,
                album_id,
                description,
                category,
                tags,
                visibility,
                upload_image,
            }),
    {
        UploadPhoto { title, album_id, description, category, tags, visibility, upload_image }
    }

    pub fn title(&self) -> (r: &str)
        ensures
            r@ == self.title@,
    {
        self.title.as_str()
    }

    pub fn description(&self) -> (r: &str)
        ensures
            r@ == self.description@,
    {
        self.description.as_str()
    }

    pub fn category(&self) -> (r: &str)
        ensures
            r@ == self.category@,
    {
        self.category.as_str()
    }

    pub fn tags(&self) -> (r: &Vec<String>)
        ensures
            r@ == self.tags@,
    {
        &self.tags
    }

    pub fn visibility(&self) -> (r: &Visibility)
        ensures
            r == self.visibility,
    {
        &self.visibility
    }

    pub fn upload_image(&self) -> (r: &UploadImage)
        ensures
            r == self.upload_image,
    {
        &self.upload_image
    }

    pub fn album_id(&self) -> (r: &Option<String>)
        ensures
            r == self.album_id,
    {
        &self.album_id
    }
}

} // verus!
