//! Domain value types shared across the library: visibility of a resource,
//! image formats, and their wire and storage counterparts.

use vstd::prelude::*;

verus! {

/// Who may see a resource: everyone, or only its owner.
#[derive(Clone, Copy, Debug, PartialEq, Eq, Structural)]
pub enum Visibility {
    Public,
    Private,
}

impl Visibility {
    /// The text of a visibility value, as it travels in claims and rows.
    pub open spec fn spec_str(self) -> Seq<char> {
        match self {
            Visibility::Public => "Public"@,
            Visibility::Private => "Private"@,
        }
    }

    /// The name of the visibility value.
    pub fn as_str(&self) -> (r: &'static str)
        ensures
            r@ == self.spec_str(),
    {
        match self {
            Visibility::Public => "Public",
            Visibility::Private => "Private",
        }
    }

    /// Reads a visibility value back from its name; any other text is
    /// rejected.
    pub fn parse(value: &str) -> (r: Option<Visibility>)
        ensures
            value@ == "Public"@ ==> r == Some(Visibility::Public),
            value@ == "Private"@ ==> r == Some(Visibility::Private),
            value@ != "Public"@ && value@ != "Private"@ ==> r is None,
    {
        proof {
            reveal_strlit("Public");
            reveal_strlit("Private");
            assert("Public"@.len() == 6);
            assert("Private"@.len() == 7);
            assert("Public"@ != "Private"@);
        }
        if crate::text::text_eq(value, "Public") {
            Some(Visibility::Public)
        } else if crate::text::text_eq(value, "Private") {
            Some(Visibility::Private)
        } else {
            None
        }
    }
}

/// Visibility as the HTTP API spells it.
#[derive(Clone, Copy, Debug, PartialEq, Eq, Structural)]
pub enum VisibilityApi {
    Public,
    Private,
}

impl VisibilityApi {
    /// The domain value of an API visibility.
    pub fn to_visibility(self) -> (r: Visibility)
        ensures
            r == (match self {
                VisibilityApi::Public => Visibility::Public,
                VisibilityApi::Private => Visibility::Private,
            }),
    {
        match self {
            VisibilityApi::Public => Visibility::Public,
            VisibilityApi::Private => Visibility::Private,
        }
    }

    /// The API spelling of a domain visibility.
    pub fn of_visibility(visibility: Visibility) -> (r: VisibilityApi)
        ensures
            r == (match visibility {
                Visibility::Public => VisibilityApi::Public,
                Visibility::Private => VisibilityApi::Private,
            }),
    {
        match visibility {
            Visibility::Public => VisibilityApi::Public,
            Visibility::Private => VisibilityApi::Private,
        }
    }
}

/// Visibility as the relational store spells it.
#[derive(Clone, Copy, Debug, PartialEq, Eq, Structural)]
pub enum VisibilityEntity {
    Public,
    Private,
}

impl VisibilityEntity {
    /// The domain value of a stored visibility.
    pub fn to_visibility(self) -> (r: Visibility)
        ensures
            r == (match self {
                VisibilityEntity::Public => Visibility::Public,
                VisibilityEntity::Private => Visibility::Private,
            }),
    {
        match self {
            VisibilityEntity::Public => Visibility::Public,
            VisibilityEntity::Private => Visibility::Private,
        }
    }

    /// The stored spelling of a domain visibility.
    pub fn of_visibility(visibility: Visibility) -> (r: VisibilityEntity)
        ensures
            r == (match visibility {
                Visibility::Public => VisibilityEntity::Public,
                Visibility::Private => VisibilityEntity::Private,
            }),
    {
        match visibility {
            Visibility::Public => VisibilityEntity::Public,
            Visibility::Private => VisibilityEntity::Private,
        }
    }
}

/// The image formats the system stores and serves.
#[derive(Clone, Copy, Debug, PartialEq, Eq, Structural)]
pub enum ImageFormat {
    Png,
    Jpeg,
    Gif,
    WebP,
    Pnm,
    Tiff,
    Tga,
    Dds,
    Bmp,
    Ico,
    Hdr,
    OpenExr,
    Farbfeld,
    Avif,
    Qoi,
    Pcx,
}

/// Image format as the relational store spells it.
#[derive(Clone, Copy, Debug, PartialEq, Eq, Structural)]
pub enum ImageFormatEntity {
    Png,
    Jpeg,
    Gif,
    WebP,
    Pnm,
    Tiff,
    Tga,
    Dds,
    Bmp,
    Ico,
    Hdr,
    OpenExr,
    Farbfeld,
    Avif,
    Qoi,
    Pcx,
}

/// The stored counterpart of each image format.
pub open spec fn spec_format_entity(format: ImageFormat) -> ImageFormatEntity {
    match format {
        ImageFormat::Png => ImageFormatEntity::Png,
        ImageFormat::Jpeg => ImageFormatEntity::Jpeg,
        ImageFormat::Gif => ImageFormatEntity::Gif,
        ImageFormat::WebP => ImageFormatEntity::WebP,
        ImageFormat::Pnm => ImageFormatEntity::Pnm,
        ImageFormat::Tiff => ImageFormatEntity::Tiff,
        ImageFormat::Tga => ImageFormatEntity::Tga,
        ImageFormat::Dds => ImageFormatEntity::Dds,
        ImageFormat::Bmp => ImageFormatEntity::Bmp,
        ImageFormat::Ico => ImageFormatEntity::Ico,
        ImageFormat::Hdr => ImageFormatEntity::Hdr,
        ImageFormat::OpenExr => ImageFormatEntity::OpenExr,
        ImageFormat::Farbfeld => ImageFormatEntity::Farbfeld,
        ImageFormat::Avif => ImageFormatEntity::Avif,
        ImageFormat::Qoi => ImageFormatEntity::Qoi,
        ImageFormat::Pcx => ImageFormatEntity::Pcx,
    }
}

/// The domain counterpart of each stored image format.
pub open spec fn spec_format_of_entity(entity: ImageFormatEntity) -> ImageFormat {
    match entity {
        ImageFormatEntity::Png => ImageFormat::Png,
        ImageFormatEntity::Jpeg => ImageFormat::Jpeg,
        ImageFormatEntity::Gif => ImageFormat::Gif,
        ImageFormatEntity::WebP => ImageFormat::WebP,
        ImageFormatEntity::Pnm => ImageFormat::Pnm,
        ImageFormatEntity::Tiff => ImageFormat::Tiff,
        ImageFormatEntity::Tga => ImageFormat::Tga,
        ImageFormatEntity::Dds => ImageFormat::Dds,
        ImageFormatEntity::Bmp => ImageFormat::Bmp,
        ImageFormatEntity::Ico => ImageFormat::Ico,
        ImageFormatEntity::Hdr => ImageFormat::Hdr,
        ImageFormatEntity::OpenExr => ImageFormat::OpenExr,
        ImageFormatEntity::Farbfeld => ImageFormat::Farbfeld,
        ImageFormatEntity::Avif => ImageFormat::Avif,
        ImageFormatEntity::Qoi => ImageFormat::Qoi,
        ImageFormatEntity::Pcx => ImageFormat::Pcx,
    }
}

impl ImageFormatEntity {
    /// The stored spelling of a domain image format.
    pub fn of_format(format: ImageFormat) -> (r: ImageFormatEntity)
        ensures
            r == spec_format_entity(format),
    {
        match format {
            ImageFormat::Png => ImageFormatEntity::Png,
            ImageFormat::Jpeg => ImageFormatEntity::Jpeg,
            ImageFormat::Gif => ImageFormatEntity::Gif,
            ImageFormat::WebP => ImageFormatEntity::WebP,
            ImageFormat::Pnm => ImageFormatEntity::Pnm,
            ImageFormat::Tiff => ImageFormatEntity::Tiff,
            ImageFormat::Tga => ImageFormatEntity::Tga,
            ImageFormat::Dds => ImageFormatEntity::Dds,
            ImageFormat::Bmp => ImageFormatEntity::Bmp,
            ImageFormat::Ico => ImageFormatEntity::Ico,
            ImageFormat::Hdr => ImageFormatEntity::Hdr,
            ImageFormat::OpenExr => ImageFormatEntity::OpenExr,
            ImageFormat::Farbfeld => ImageFormatEntity::Farbfeld,
            ImageFormat::Avif => ImageFormatEntity::Avif,
            ImageFormat::Qoi => ImageFormatEntity::Qoi,
            ImageFormat::Pcx => ImageFormatEntity::Pcx,
        }
    }

    /// The domain image format of a stored one.
    pub fn to_format(self) -> (r: ImageFormat)
        ensures
            r == spec_format_of_entity(self),
    {
        match self {
            ImageFormatEntity::Png => ImageFormat::Png,
            ImageFormatEntity::Jpeg => ImageFormat::Jpeg,
            ImageFormatEntity::Gif => ImageFormat::Gif,
            ImageFormatEntity::WebP => ImageFormat::WebP,
            ImageFormatEntity::Pnm => ImageFormat::Pnm,
            ImageFormatEntity::Tiff => ImageFormat::Tiff,
            ImageFormatEntity::Tga => ImageFormat::Tga,
            ImageFormatEntity::Dds => ImageFormat::Dds,
            ImageFormatEntity::Bmp => ImageFormat::Bmp,
            ImageFormatEntity::Ico => ImageFormat::Ico,
            ImageFormatEntity::Hdr => ImageFormat::Hdr,
            ImageFormatEntity::OpenExr => ImageFormat::OpenExr,
            ImageFormatEntity::Farbfeld => ImageFormat::Farbfeld,
            ImageFormatEntity::Avif => ImageFormat::Avif,
            ImageFormatEntity::Qoi => ImageFormat::Qoi,
            ImageFormatEntity::Pcx => ImageFormat::Pcx,
        }
    }
}

} // verus!

pub mod album;
pub mod api;
pub mod image;
pub mod pagination;
pub mod photo;
