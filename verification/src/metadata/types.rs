//! Metadata records: attributes, images, clip metadata, creator attribution
//! and token metadata.

use vstd::prelude::*;

use crate::bytes::opt_bytes;
use crate::env::Env;
use crate::social_platform::SocialPlatform;
use crate::types::Address;

verus! {

/// An OpenSea-style attribute: a trait type, its value and an optional
/// rendering hint.
#[derive(Clone, Debug, Eq, PartialEq)]
pub struct Attribute {
    pub trait_type: Vec<u8>,
    pub value: Vec<u8>,
    pub display_type: Option<Vec<u8>>,
}

/// The bytes an attribute holds.
pub struct AttributeView {
    pub trait_type: Seq<u8>,
    pub value: Seq<u8>,
    pub display_type: Option<Seq<u8>>,
}

impl View for Attribute {
    type V = AttributeView;

    open spec fn view(&self) -> AttributeView {
        AttributeView {
            trait_type: self.trait_type@,
            value: self.value@,
            display_type: opt_bytes(self.display_type),
        }
    }
}

/// The views of a sequence of attributes.
pub open spec fn attrs_view(attrs: Seq<Attribute>) -> Seq<AttributeView> {
    attrs.map_values(|a: Attribute| a@)
}

impl Attribute {
    /// An attribute without a display type.
    pub fn new(trait_type: Vec<u8>, value: Vec<u8>) -> (r: Self)
        ensures
            r.trait_type == trait_type,
            r.value == value,
            r.display_type is None,
    {
        Attribute { trait_type, value, display_type: None }
    }

    /// An attribute with an optional display type.
    pub fn with_display_type(trait_type: Vec<u8>, value: Vec<u8>, display_type: Option<Vec<u8>>) -> (r: Self)
        ensures
            r == (Attribute { trait_type, value, display_type }),
    {
        Attribute { trait_type, value, display_type }
    }

    /// Whether a display type is set.
    pub fn has_display_type(&self) -> (r: bool)
        ensures
            r == self.display_type is Some,
    {
        self.display_type.is_some()
    }
}

/// A copy of an attribute.
pub fn copy_attribute(a: &Attribute) -> (r: Attribute)
    ensures
        r@ == a@,
{
    Attribute {
        trait_type: crate::bytes::copy_bytes(&a.trait_type),
        value: crate::bytes::copy_bytes(&a.value),
        display_type: crate::bytes::copy_opt_bytes(&a.display_type),
    }
}

/// An image reference with its MIME type and pixel dimensions.
#[derive(Clone, Debug, Eq, PartialEq)]
pub struct MetadataImage {
    pub image_url: Vec<u8>,
    pub mime_type: Vec<u8>,
    pub width: u32,
    pub height: u32,
}

impl MetadataImage {
    /// An image record.
    pub fn new(env: &Env, image_url: Vec<u8>, mime_type: Vec<u8>, width: u32, height: u32) -> (r: Self)
        ensures
            r == (MetadataImage { image_url, mime_type, width, height }),
    {
        MetadataImage { image_url, mime_type, width, height }
    }

    /// Whether both dimensions are non-zero.
    pub fn has_dimensions(&self) -> (r: bool)
        ensures
            r == (self.width > 0 && self.height > 0),
    {
        self.width > 0 && self.height > 0
    }

    /// `(width, height)` when both are non-zero.
    pub fn dimensions(&self) -> (r: Option<(u32, u32)>)
        ensures
            r == (if self.width == 0 || self.height == 0 {
                None
            } else {
                Some((self.width, self.height))
            }),
    {
        if self.width == 0 || self.height == 0 {
            None
        } else {
            Some((self.width, self.height))
        }
    }
}

/// Metadata of a minted clip.
#[derive(Clone, Debug, Eq, PartialEq)]
pub struct ClipMetadata {
    pub clip_id: u32,
    pub platform: SocialPlatform,
    pub metadata_uri: Vec<u8>,
    pub created_at: u64,
    pub updated_at: u64,
    pub image: Option<Vec<u8>>,
    pub thumbnail: Option<Vec<u8>>,
    pub animation_url: Option<Vec<u8>>,
    pub description: Option<Vec<u8>>,
    pub external_url: Option<Vec<u8>>,
    pub duration: Option<u64>,
    pub category: Option<Vec<u8>>,
    pub language: Option<Vec<u8>>,
    /// Virality score in `0..=100`, when known.
    pub virality_score: Option<u64>,
    pub attributes: Vec<Attribute>,
}

/// Creator attribution of a clip.
#[derive(Clone, Debug, Eq, PartialEq)]
pub struct CreatorMetadata {
    pub creator_address: Address,
    pub display_name: Option<Vec<u8>>,
    pub verified: bool,
}

impl CreatorMetadata {
    /// Unverified attribution without a display name.
    pub fn new(creator_address: Address) -> (r: Self)
        ensures
            r == (CreatorMetadata { creator_address, display_name: None, verified: false }),
    {
        CreatorMetadata { creator_address, display_name: None, verified: false }
    }

    /// Attribution with every field given.
    pub fn with_details(creator_address: Address, display_name: Option<Vec<u8>>, verified: bool) -> (r: Self)
        ensures
            r == (CreatorMetadata { creator_address, display_name, verified }),
    {
        CreatorMetadata { creator_address, display_name, verified }
    }

    /// The same attribution with `display_name` replaced.
    pub fn set_display_name(self, display_name: Option<Vec<u8>>) -> (r: Self)
        ensures
            r == (CreatorMetadata { display_name, ..self }),
    {
        let mut s = self;
        s.display_name = display_name;
        s
    }

    /// The same attribution with `verified` replaced.
    pub fn set_verified(self, verified: bool) -> (r: Self)
        ensures
            r == (CreatorMetadata { verified, ..self }),
    {
        let mut s = self;
        s.verified = verified;
        s
    }
}

/// Whether clip metadata carries any optional field.
pub open spec fn clip_has_optional_fields(m: ClipMetadata) -> bool {
    m.image is Some || m.thumbnail is Some || m.animation_url is Some || m.description is Some
        || m.external_url is Some || m.attributes@.len() > 0
}

impl ClipMetadata {
    /// Minimal clip metadata stamped with the ledger time; the platform
    /// defaults to TikTok.
    pub fn new(env: &Env, clip_id: u32, metadata_uri: Vec<u8>) -> (r: Self)
        ensures
            r.clip_id == clip_id,
            r.platform == SocialPlatform::TikTok,
            r.metadata_uri == metadata_uri,
            r.created_at == env.timestamp,
            r.updated_at == env.timestamp,
            r.image is None,
            r.thumbnail is None,
            r.animation_url is None,
            r.description is None,
            r.external_url is None,
            r.duration is None,
            r.category is None,
            r.language is None,
            r.virality_score is None,
            r.attributes@.len() == 0,
    {
        ClipMetadata {
            clip_id,
            platform: SocialPlatform::TikTok,
            metadata_uri,
            created_at: env.timestamp,
            updated_at: env.timestamp,
            image: None,
            thumbnail: None,
            animation_url: None,
            description: None,
            external_url: None,
            duration: None,
            category: None,
            language: None,
            virality_score: None,
            attributes: Vec::new(),
        }
    }

    /// Clip metadata with the platform and the main optional fields given,
    /// stamped with the ledger time.
    pub fn with_full_data(
        env: &Env,
        clip_id: u32,
        platform: SocialPlatform,
        metadata_uri: Vec<u8>,
        image: Option<Vec<u8>>,
        animation_url: Option<Vec<u8>>,
        description: Option<Vec<u8>>,
        external_url: Option<Vec<u8>>,
        attributes: Vec<Attribute>,
    ) -> (r: Self)
        ensures
            r == (ClipMetadata {
                clip_id,
                platform,
                metadata_uri,
                created_at: env.timestamp,
                updated_at: env.timestamp,
                image,
                thumbnail: None,
                animation_url,
                description,
                external_url,
                duration: None,
                category: None,
                language: None,
                virality_score: None,
                attributes,
            }),
    {
        ClipMetadata {
            clip_id,
            platform,
            metadata_uri,
            created_at: env.timestamp,
            updated_at: env.timestamp,
            image,
            thumbnail: None,
            animation_url,
            description,
            external_url,
            duration: None,
            category: None,
            language: None,
            virality_score: None,
            attributes,
        }
    }

    /// Whether any optional field is set.
    pub fn has_optional_fields(&self) -> (r: bool)
        ensures
            r == clip_has_optional_fields(*self),
    {
        self.image.is_some() || self.thumbnail.is_some() || self.animation_url.is_some()
            || self.description.is_some() || self.external_url.is_some() || self.attributes.len() > 0
    }

    /// Number of attributes.
    pub fn attribute_count(&self) -> (r: u32)
        requires
            self.attributes@.len() <= u32::MAX,
        ensures
            r == self.attributes@.len(),
    {
        self.attributes.len() as u32
    }

    pub fn created_at(&self) -> (r: u64)
        ensures
            r == self.created_at,
    {
        self.created_at
    }

    pub fn updated_at(&self) -> (r: u64)
        ensures
            r == self.updated_at,
    {
        self.updated_at
    }

    pub fn duration(&self) -> (r: Option<u64>)
        ensures
            r == self.duration,
    {
        self.duration
    }

    pub fn category(&self) -> (r: Option<&Vec<u8>>)
        ensures
            r == (match self.category {
                Some(c) => Some(&c),
                None => None,
            }),
    {
        match &self.category {
            Some(c) => Some(c),
            None => None,
        }
    }

    pub fn virality_score(&self) -> (r: Option<u64>)
        ensures
            r == self.virality_score,
    {
        self.virality_score
    }

    /// Set the virality score.
    ///
    /// # Errors
    /// A message when `score > 100`; the metadata is unchanged.
    pub fn set_virality_score(&mut self, score: u64) -> (r: Result<(), &'static str>)
        ensures
            r is Ok <==> score <= 100,
            score <= 100 ==> *final(self) == (ClipMetadata { virality_score: Some(score), ..*old(self) }),
            score > 100 ==> *final(self) == *old(self),
    {
        if score > 100 {
            return Err("Virality score must be between 0 and 100");
        }
        self.virality_score = Some(score);
        Ok(())
    }

    /// Stamp `updated_at` with the ledger time.
    pub fn touch(&mut self, env: &Env)
        ensures
            *final(self) == (ClipMetadata { updated_at: env.timestamp, ..*old(self) }),
    {
        self.updated_at = env.timestamp;
    }
}

/// Token-level metadata.
#[derive(Clone, Debug, Eq, PartialEq)]
pub struct TokenMetadata {
    pub metadata_uri: Vec<u8>,
    pub image: Option<Vec<u8>>,
    pub animation_url: Option<Vec<u8>>,
    pub description: Option<Vec<u8>>,
    pub external_url: Option<Vec<u8>>,
    pub attributes: Vec<Attribute>,
}

/// Whether token metadata carries any optional field.
pub open spec fn token_has_optional_fields(m: TokenMetadata) -> bool {
    m.image is Some || m.animation_url is Some || m.description is Some || m.external_url is Some
        || m.attributes@.len() > 0
}

impl TokenMetadata {
    /// Token metadata with only the URI set.
    pub fn new(env: &Env, metadata_uri: Vec<u8>) -> (r: Self)
        ensures
            r.metadata_uri == metadata_uri,
            r.image is None,
            r.animation_url is None,
            r.description is None,
            r.external_url is None,
            r.attributes@.len() == 0,
    {
        TokenMetadata {
            metadata_uri,
            image: None,
            animation_url: None,
            description: None,
            external_url: None,
            attributes: Vec::new(),
        }
    }

    /// Whether any optional field is set.
    pub fn has_optional_fields(&self) -> (r: bool)
        ensures
            r == token_has_optional_fields(*self),
    {
        self.image.is_some() || self.animation_url.is_some() || self.description.is_some()
            || self.external_url.is_some() || self.attributes.len() > 0
    }
}

} // verus!
