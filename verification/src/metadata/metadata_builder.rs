//! Builders for clip and token metadata, with validation and JSON output.

use vstd::prelude::*;
use vstd::string::StringSliceAdditionalSpecFns;

pub use crate::metadata::json::format_json_field;

use crate::bytes::opt_bytes;
use crate::env::Env;
use crate::metadata::helpers::{
    clear_optional_field, cleared, duplicate_traits, filter_empty_attributes, filter_vacant_attributes,
    has_duplicate_traits, non_empty_attribute, non_vacant_attribute,
};
use crate::metadata::json::{decimal, decimal_bytes, json_field, json_object, json_string, json_string_bytes, literal_bytes, object_of, optional_member,
    attributes_json, serialize_attributes, views};
use crate::metadata::types::{attrs_view, Attribute, AttributeView, ClipMetadata, TokenMetadata};
use crate::metadata::validation::{
    attributes_ok, description_check, metadata_uri_check, optional_url_check, url_check, validate_animation_url,
    validate_attributes, validate_description, validate_external_url, validate_image_url, validate_metadata_uri,
    validate_url,
};
use crate::social_platform::SocialPlatform;
use crate::types::Error;

verus! {

/// Builder of [`ClipMetadata`].
pub struct ClipMetadataBuilder<'a> {
    env: &'a Env,
    clip_id: u32,
    metadata_uri: Vec<u8>,
    image: Option<Vec<u8>>,
    thumbnail: Option<Vec<u8>>,
    animation_url: Option<Vec<u8>>,
    description: Option<Vec<u8>>,
    external_url: Option<Vec<u8>>,
    duration: Option<u64>,
    category: Option<Vec<u8>>,
    language: Option<Vec<u8>>,
    virality_score: Option<u64>,
    attributes: Vec<Attribute>,
}

/// What a clip metadata builder holds.
pub struct ClipBuilderView {
    /// The environment the builder was made with.
    pub env: Env,
    pub clip_id: u32,
    pub metadata_uri: Seq<u8>,
    pub image: Option<Seq<u8>>,
    pub thumbnail: Option<Seq<u8>>,
    pub animation_url: Option<Seq<u8>>,
    pub description: Option<Seq<u8>>,
    pub external_url: Option<Seq<u8>>,
    pub duration: Option<u64>,
    pub category: Option<Seq<u8>>,
    pub language: Option<Seq<u8>>,
    pub virality_score: Option<u64>,
    pub attributes: Seq<AttributeView>,
}

impl<'a> View for ClipMetadataBuilder<'a> {
    type V = ClipBuilderView;

    closed spec fn view(&self) -> ClipBuilderView {
        ClipBuilderView {
            env: *self.env,
            clip_id: self.clip_id,
            metadata_uri: self.metadata_uri@,
            image: opt_bytes(self.image),
            thumbnail: opt_bytes(self.thumbnail),
            animation_url: opt_bytes(self.animation_url),
            description: opt_bytes(self.description),
            external_url: opt_bytes(self.external_url),
            duration: self.duration,
            category: opt_bytes(self.category),
            language: opt_bytes(self.language),
            virality_score: self.virality_score,
            attributes: attrs_view(self.attributes@),
        }
    }
}

/// Outcome of [`ClipMetadataBuilder::validate`].
pub open spec fn clip_builder_check(v: ClipBuilderView) -> Result<(), Error> {
    if metadata_uri_check(v.metadata_uri) is Err {
        metadata_uri_check(v.metadata_uri)
    } else if optional_url_check(v.image) is Err {
        optional_url_check(v.image)
    } else if optional_url_check(v.animation_url) is Err {
        optional_url_check(v.animation_url)
    } else if optional_url_check(v.external_url) is Err {
        optional_url_check(v.external_url)
    } else if description_check(v.description) is Err {
        description_check(v.description)
    } else if !attributes_ok(v.attributes) || duplicate_traits(v.attributes) {
        Err(Error::InvalidURI)
    } else {
        Ok(())
    }
}

/// The members of a clip's JSON document, in order.
pub open spec fn clip_json_parts(v: ClipBuilderView) -> Seq<Seq<u8>> {
    seq![
        json_field("clip_id".spec_bytes(), decimal(v.clip_id as nat)),
        json_field("metadata_uri".spec_bytes(), json_string(v.metadata_uri)),
    ] + optional_member("image".spec_bytes(), v.image) + optional_member("animation_url".spec_bytes(), v.animation_url)
        + optional_member("description".spec_bytes(), v.description) + optional_member(
        "external_url".spec_bytes(),
        v.external_url,
    ) + (if v.attributes.len() > 0 {
        seq![json_field("attributes".spec_bytes(), attributes_json(v.attributes))]
    } else {
        Seq::empty()
    })
}

/// Whether `m` is the clip metadata a builder holding `v` builds, with the
/// builder's duration, category, language and virality score when `keep_extra`.
pub open spec fn built_clip(m: ClipMetadata, v: ClipBuilderView, keep_extra: bool) -> bool {
    &&& m.clip_id == v.clip_id
    &&& m.platform == SocialPlatform::TikTok
    &&& m.metadata_uri@ == v.metadata_uri
    &&& m.created_at == v.env.timestamp
    &&& m.updated_at == v.env.timestamp
    &&& opt_bytes(m.image) == v.image
    &&& opt_bytes(m.thumbnail) == v.thumbnail
    &&& opt_bytes(m.animation_url) == v.animation_url
    &&& opt_bytes(m.description) == v.description
    &&& opt_bytes(m.external_url) == v.external_url
    &&& m.duration == (if keep_extra { v.duration } else { None })
    &&& opt_bytes(m.category) == (if keep_extra { v.category } else { None })
    &&& opt_bytes(m.language) == (if keep_extra { v.language } else { None })
    &&& m.virality_score == (if keep_extra { v.virality_score } else { None })
    &&& attrs_view(m.attributes@) == v.attributes
}


/// Push the member `"key":value` when the value is present.
fn push_optional_member(parts: &mut Vec<Vec<u8>>, key: &'static str, value: &Option<Vec<u8>>)
    ensures
        views(final(parts)@) == views(old(parts)@) + optional_member(key.spec_bytes(), opt_bytes(*value)),
{
    if let Some(v) = value {
        let field = format_json_field(&literal_bytes(key), &json_string_bytes(v));
        let ghost before = parts@;
        parts.push(field);
        assert(views(parts@) =~= views(before) + optional_member(key.spec_bytes(), opt_bytes(*value)));
    } else {
        assert(views(parts@) =~= views(old(parts)@) + optional_member(key.spec_bytes(), opt_bytes(*value)));
    }
}

impl<'a> ClipMetadataBuilder<'a> {
    /// A builder for `clip_id` with only the metadata URI set.
    pub fn new(env: &'a Env, clip_id: u32, metadata_uri: Vec<u8>) -> (r: Self)
        ensures
            r@ == (ClipBuilderView {
                env: *env,
                clip_id,
                metadata_uri: metadata_uri@,
                image: None,
                thumbnail: None,
                animation_url: None,
                description: None,
                external_url: None,
                duration: None,
                category: None,
                language: None,
                virality_score: None,
                attributes: Seq::empty(),
            }),
    {
        let r = ClipMetadataBuilder {
            env,
            clip_id,
            metadata_uri,
            image: None,
            thumbnail: None,
            animation_url: None,
            description: None,
            external_url: None,
            duration: None,
            category: None,
            language: None,
            virality_score: None,
            attributes: Vec::new(),
        };
        assert(attrs_view(r.attributes@) =~= Seq::<AttributeView>::empty());
        r
    }

    /// Set the image; a blank value clears it.
    pub fn with_image(self, image: Option<Vec<u8>>) -> (r: Self)
        ensures
            r@ == (ClipBuilderView { image: cleared(opt_bytes(image)), ..self@ }),
    {
        let mut s = self;
        s.image = clear_optional_field(&image);
        s
    }

    /// Set the thumbnail, as given.
    pub fn with_thumbnail(self, thumbnail: Option<Vec<u8>>) -> (r: Self)
        ensures
            r@ == (ClipBuilderView { thumbnail: opt_bytes(thumbnail), ..self@ }),
    {
        let mut s = self;
        s.thumbnail = thumbnail;
        s
    }

    /// Set the animation URL; a blank value clears it.
    pub fn with_animation_url(self, animation_url: Option<Vec<u8>>) -> (r: Self)
        ensures
            r@ == (ClipBuilderView { animation_url: cleared(opt_bytes(animation_url)), ..self@ }),
    {
        let mut s = self;
        s.animation_url = clear_optional_field(&animation_url);
        s
    }

    /// Set the description; a blank value clears it.
    pub fn with_description(self, description: Option<Vec<u8>>) -> (r: Self)
        ensures
            r@ == (ClipBuilderView { description: cleared(opt_bytes(description)), ..self@ }),
    {
        let mut s = self;
        s.description = clear_optional_field(&description);
        s
    }

    /// Set the external URL; a blank value clears it.
    pub fn with_external_url(self, external_url: Option<Vec<u8>>) -> (r: Self)
        ensures
            r@ == (ClipBuilderView { external_url: cleared(opt_bytes(external_url)), ..self@ }),
    {
        let mut s = self;
        s.external_url = clear_optional_field(&external_url);
        s
    }

    /// Replace the attributes with those of `attributes` that are not
    /// vacant: an attribute with neither a trait type nor a value is
    /// dropped, one with only part of it is kept for validation to refuse.
    pub fn with_attributes(self, attributes: Vec<Attribute>) -> (r: Self)
        ensures
            r@ == (ClipBuilderView {
                attributes: attrs_view(attributes@).filter(|a: AttributeView| non_vacant_attribute(a)),
                ..self@
            }),
    {
        let mut s = self;
        s.attributes = filter_vacant_attributes(&attributes);
        s
    }

    /// Append an attribute without a display type.
    pub fn add_attribute(self, trait_type: Vec<u8>, value: Vec<u8>) -> (r: Self)
        ensures
            r@ == (ClipBuilderView {
                attributes: self@.attributes.push(AttributeView { trait_type: trait_type@, value: value@, display_type: None }),
                ..self@
            }),
    {
        let mut s = self;
        let ghost before = s.attributes@;
        s.attributes.push(Attribute { trait_type, value, display_type: None });
        assert(attrs_view(s.attributes@) =~= attrs_view(before).push(
            AttributeView { trait_type: trait_type@, value: value@, display_type: None },
        ));
        s
    }

    /// Append an attribute with an optional display type.
    pub fn add_attribute_typed(self, trait_type: Vec<u8>, value: Vec<u8>, display_type: Option<Vec<u8>>) -> (r: Self)
        ensures
            r@ == (ClipBuilderView {
                attributes: self@.attributes.push(
                    AttributeView { trait_type: trait_type@, value: value@, display_type: opt_bytes(display_type) },
                ),
                ..self@
            }),
    {
        let mut s = self;
        let ghost before = s.attributes@;
        let ghost dt = opt_bytes(display_type);
        s.attributes.push(Attribute { trait_type, value, display_type });
        assert(attrs_view(s.attributes@) =~= attrs_view(before).push(
            AttributeView { trait_type: trait_type@, value: value@, display_type: dt },
        ));
        s
    }

    /// Check the metadata URI, the optional URLs, the description, the
    /// attributes, and that no two attributes share a trait type.
    ///
    /// # Errors
    /// The first failing check's error (see [`clip_builder_check`]).
    pub fn validate(&self) -> (r: Result<(), Error>)
        ensures
            r == clip_builder_check(self@),
    {
        validate_metadata_uri(self.env, &self.metadata_uri)?;
        validate_image_url(self.env, &self.image)?;
        validate_animation_url(self.env, &self.animation_url)?;
        validate_external_url(self.env, &self.external_url)?;
        validate_description(&self.description)?;
        validate_attributes(&self.attributes)?;
        if has_duplicate_traits(&self.attributes) {
            return Err(Error::InvalidURI);
        }
        Ok(())
    }

    /// Validate, then build the clip metadata, stamped with the ledger time.
    /// Duration, category, language and virality score are left unset.
    pub fn build(self) -> (r: Result<ClipMetadata, Error>)
        ensures
            r is Err <==> clip_builder_check(self@) is Err,
            r matches Err(e) ==> clip_builder_check(self@) == Err::<(), Error>(e),
            r matches Ok(m) ==> built_clip(m, self@, false),
    {
        match self.validate() {
            Ok(()) => {},
            Err(e) => return Err(e),
        }
        let ts = self.env.timestamp;
        Ok(ClipMetadata {
            clip_id: self.clip_id,
            platform: SocialPlatform::TikTok,
            metadata_uri: self.metadata_uri,
            created_at: ts,
            updated_at: ts,
            image: self.image,
            thumbnail: self.thumbnail,
            animation_url: self.animation_url,
            description: self.description,
            external_url: self.external_url,
            duration: None,
            category: None,
            language: None,
            virality_score: None,
            attributes: self.attributes,
        })
    }

    /// Build the clip metadata without validating.
    pub fn build_unchecked(self) -> (r: ClipMetadata)
        ensures
            built_clip(r, self@, true),
    {
        let ts = self.env.timestamp;
        ClipMetadata {
            clip_id: self.clip_id,
            platform: SocialPlatform::TikTok,
            metadata_uri: self.metadata_uri,
            created_at: ts,
            updated_at: ts,
            image: self.image,
            thumbnail: self.thumbnail,
            animation_url: self.animation_url,
            description: self.description,
            external_url: self.external_url,
            duration: self.duration,
            category: self.category,
            language: self.language,
            virality_score: self.virality_score,
            attributes: self.attributes,
        }
    }

    /// Validate, then write the metadata as a JSON object: `clip_id`,
    /// `metadata_uri`, the optional fields that are set, and `attributes`
    /// when there are any. `clip_id` is a number; every other value is a JSON
    /// string, quoted and escaped.
    pub fn to_json(&self) -> (r: Result<Vec<u8>, Error>)
        ensures
            r is Err <==> clip_builder_check(self@) is Err,
            r matches Err(e) ==> clip_builder_check(self@) == Err::<(), Error>(e),
            r matches Ok(j) ==> j@ == json_object(clip_json_parts(self@)),
    {
        match self.validate() {
            Ok(()) => {},
            Err(e) => return Err(e),
        }
        let mut parts: Vec<Vec<u8>> = Vec::new();
        parts.push(format_json_field(&literal_bytes("clip_id"), &decimal_bytes(self.clip_id)));
        parts.push(format_json_field(&literal_bytes("metadata_uri"), &json_string_bytes(&self.metadata_uri)));
        assert(views(parts@) =~= seq![
            json_field("clip_id".spec_bytes(), decimal(self.clip_id as nat)),
            json_field("metadata_uri".spec_bytes(), json_string(self.metadata_uri@)),
        ]);
        push_optional_member(&mut parts, "image", &self.image);
        push_optional_member(&mut parts, "animation_url", &self.animation_url);
        push_optional_member(&mut parts, "description", &self.description);
        push_optional_member(&mut parts, "external_url", &self.external_url);
        let ghost before = parts@;
        if self.attributes.len() > 0 {
            let attrs_json = serialize_attributes(&self.attributes);
            parts.push(format_json_field(&literal_bytes("attributes"), &attrs_json));
            assert(views(parts@) =~= views(before) + seq![json_field("attributes".spec_bytes(), attributes_json(self@.attributes))]);
        } else {
            assert(views(parts@) =~= views(before) + Seq::<Seq<u8>>::empty());
        }
        assert(views(parts@) =~= clip_json_parts(self@));
        Ok(object_of(&parts))
    }

    /// The environment the builder stamps times from.
    pub fn env(&self) -> (r: &Env)
        ensures
            *r == self@.env,
    {
        self.env
    }
}

/// Builder of [`TokenMetadata`].
pub struct TokenMetadataBuilder<'a> {
    env: &'a Env,
    metadata_uri: Vec<u8>,
    image: Option<Vec<u8>>,
    animation_url: Option<Vec<u8>>,
    description: Option<Vec<u8>>,
    external_url: Option<Vec<u8>>,
    attributes: Vec<Attribute>,
}

/// What a token metadata builder holds.
pub struct TokenBuilderView {
    /// The environment the builder was made with.
    pub env: Env,
    pub metadata_uri: Seq<u8>,
    pub image: Option<Seq<u8>>,
    pub animation_url: Option<Seq<u8>>,
    pub description: Option<Seq<u8>>,
    pub external_url: Option<Seq<u8>>,
    pub attributes: Seq<AttributeView>,
}

impl<'a> View for TokenMetadataBuilder<'a> {
    type V = TokenBuilderView;

    closed spec fn view(&self) -> TokenBuilderView {
        TokenBuilderView {
            env: *self.env,
            metadata_uri: self.metadata_uri@,
            image: opt_bytes(self.image),
            animation_url: opt_bytes(self.animation_url),
            description: opt_bytes(self.description),
            external_url: opt_bytes(self.external_url),
            attributes: attrs_view(self.attributes@),
        }
    }
}

/// Outcome of checking an optional URL that is only checked when non-empty,
/// and then only for its protocol.
pub open spec fn present_url_check(url: Option<Seq<u8>>) -> Result<(), Error> {
    match url {
        Some(u) => if u.len() > 0 { url_check(u) } else { Ok(()) },
        None => Ok(()),
    }
}

/// Outcome of [`TokenMetadataBuilder::validate`].
pub open spec fn token_builder_check(v: TokenBuilderView) -> Result<(), Error> {
    if metadata_uri_check(v.metadata_uri) is Err {
        metadata_uri_check(v.metadata_uri)
    } else if present_url_check(v.image) is Err {
        present_url_check(v.image)
    } else if present_url_check(v.animation_url) is Err {
        present_url_check(v.animation_url)
    } else if present_url_check(v.external_url) is Err {
        present_url_check(v.external_url)
    } else if description_check(v.description) is Err {
        description_check(v.description)
    } else if !attributes_ok(v.attributes) || duplicate_traits(v.attributes) {
        Err(Error::InvalidURI)
    } else {
        Ok(())
    }
}

/// The members of a token's JSON document, in order.
pub open spec fn token_json_parts(v: TokenBuilderView) -> Seq<Seq<u8>> {
    seq![json_field("metadata_uri".spec_bytes(), json_string(v.metadata_uri))] + optional_member("image".spec_bytes(), v.image)
        + optional_member("animation_url".spec_bytes(), v.animation_url) + optional_member(
        "description".spec_bytes(),
        v.description,
    ) + optional_member("external_url".spec_bytes(), v.external_url) + (if v.attributes.len() > 0 {
        seq![json_field("attributes".spec_bytes(), attributes_json(v.attributes))]
    } else {
        Seq::empty()
    })
}

/// Whether `m` is the token metadata a builder holding `v` builds.
pub open spec fn built_token(m: TokenMetadata, v: TokenBuilderView) -> bool {
    &&& m.metadata_uri@ == v.metadata_uri
    &&& opt_bytes(m.image) == v.image
    &&& opt_bytes(m.animation_url) == v.animation_url
    &&& opt_bytes(m.description) == v.description
    &&& opt_bytes(m.external_url) == v.external_url
    &&& attrs_view(m.attributes@) == v.attributes
}

/// Check an optional URL when it is present and non-empty.
fn validate_present_url(env: &Env, url: &Option<Vec<u8>>) -> (r: Result<(), Error>)
    ensures
        r == present_url_check(opt_bytes(*url)),
{
    if let Some(u) = url {
        if u.len() > 0 {
            validate_url(env, u)?;
        }
    }
    Ok(())
}

impl<'a> TokenMetadataBuilder<'a> {
    /// A builder with only the metadata URI set.
    pub fn new(env: &'a Env, metadata_uri: Vec<u8>) -> (r: Self)
        ensures
            r@ == (TokenBuilderView {
                env: *env,
                metadata_uri: metadata_uri@,
                image: None,
                animation_url: None,
                description: None,
                external_url: None,
                attributes: Seq::empty(),
            }),
    {
        let r = TokenMetadataBuilder {
            env,
            metadata_uri,
            image: None,
            animation_url: None,
            description: None,
            external_url: None,
            attributes: Vec::new(),
        };
        assert(attrs_view(r.attributes@) =~= Seq::<AttributeView>::empty());
        r
    }

    /// Set the image; a blank value clears it.
    pub fn with_image(self, image: Option<Vec<u8>>) -> (r: Self)
        ensures
            r@ == (TokenBuilderView { image: cleared(opt_bytes(image)), ..self@ }),
    {
        let mut s = self;
        s.image = clear_optional_field(&image);
        s
    }

    /// Set the animation URL; a blank value clears it.
    pub fn with_animation_url(self, animation_url: Option<Vec<u8>>) -> (r: Self)
        ensures
            r@ == (TokenBuilderView { animation_url: cleared(opt_bytes(animation_url)), ..self@ }),
    {
        let mut s = self;
        s.animation_url = clear_optional_field(&animation_url);
        s
    }

    /// Set the description; a blank value clears it.
    pub fn with_description(self, description: Option<Vec<u8>>) -> (r: Self)
        ensures
            r@ == (TokenBuilderView { description: cleared(opt_bytes(description)), ..self@ }),
    {
        let mut s = self;
        s.description = clear_optional_field(&description);
        s
    }

    /// Set the external URL; a blank value clears it.
    pub fn with_external_url(self, external_url: Option<Vec<u8>>) -> (r: Self)
        ensures
            r@ == (TokenBuilderView { external_url: cleared(opt_bytes(external_url)), ..self@ }),
    {
        let mut s = self;
        s.external_url = clear_optional_field(&external_url);
        s
    }

    /// Replace the attributes with those of `attributes` that have both a
    /// trait type and a value.
    pub fn with_attributes(self, attributes: Vec<Attribute>) -> (r: Self)
        ensures
            r@ == (TokenBuilderView {
                attributes: attrs_view(attributes@).filter(|a: AttributeView| non_empty_attribute(a)),
                ..self@
            }),
    {
        let mut s = self;
        s.attributes = filter_empty_attributes(s.env, &attributes);
        s
    }

    /// Append an attribute without a display type.
    pub fn add_attribute(self, trait_type: Vec<u8>, value: Vec<u8>) -> (r: Self)
        ensures
            r@ == (TokenBuilderView {
                attributes: self@.attributes.push(AttributeView { trait_type: trait_type@, value: value@, display_type: None }),
                ..self@
            }),
    {
        let mut s = self;
        let ghost before = s.attributes@;
        s.attributes.push(Attribute { trait_type, value, display_type: None });
        assert(attrs_view(s.attributes@) =~= attrs_view(before).push(
            AttributeView { trait_type: trait_type@, value: value@, display_type: None },
        ));
        s
    }

    /// Append an attribute with an optional display type.
    pub fn add_attribute_typed(self, trait_type: Vec<u8>, value: Vec<u8>, display_type: Option<Vec<u8>>) -> (r: Self)
        ensures
            r@ == (TokenBuilderView {
                attributes: self@.attributes.push(
                    AttributeView { trait_type: trait_type@, value: value@, display_type: opt_bytes(display_type) },
                ),
                ..self@
            }),
    {
        let mut s = self;
        let ghost before = s.attributes@;
        let ghost dt = opt_bytes(display_type);
        s.attributes.push(Attribute { trait_type, value, display_type });
        assert(attrs_view(s.attributes@) =~= attrs_view(before).push(
            AttributeView { trait_type: trait_type@, value: value@, display_type: dt },
        ));
        s
    }

    /// Check the metadata URI; the protocol of each non-empty optional URL;
    /// the description's length; the attributes; and that no two attributes
    /// share a trait type.
    ///
    /// # Errors
    /// The first failing check's error (see [`token_builder_check`]).
    pub fn validate(&self) -> (r: Result<(), Error>)
        ensures
            r == token_builder_check(self@),
    {
        validate_metadata_uri(self.env, &self.metadata_uri)?;
        validate_present_url(self.env, &self.image)?;
        validate_present_url(self.env, &self.animation_url)?;
        validate_present_url(self.env, &self.external_url)?;
        validate_description(&self.description)?;
        validate_attributes(&self.attributes)?;
        if has_duplicate_traits(&self.attributes) {
            return Err(Error::InvalidURI);
        }
        Ok(())
    }

    /// Validate, then build the token metadata.
    pub fn build(self) -> (r: Result<TokenMetadata, Error>)
        ensures
            r is Err <==> token_builder_check(self@) is Err,
            r matches Err(e) ==> token_builder_check(self@) == Err::<(), Error>(e),
            r matches Ok(m) ==> built_token(m, self@),
    {
        match self.validate() {
            Ok(()) => {},
            Err(e) => return Err(e),
        }
        Ok(TokenMetadata {
            metadata_uri: self.metadata_uri,
            image: self.image,
            animation_url: self.animation_url,
            description: self.description,
            external_url: self.external_url,
            attributes: self.attributes,
        })
    }

    /// Build the token metadata without validating.
    pub fn build_unchecked(self) -> (r: TokenMetadata)
        ensures
            built_token(r, self@),
    {
        TokenMetadata {
            metadata_uri: self.metadata_uri,
            image: self.image,
            animation_url: self.animation_url,
            description: self.description,
            external_url: self.external_url,
            attributes: self.attributes,
        }
    }

    /// Validate, then write the metadata as a JSON object: `metadata_uri`,
    /// the optional fields that are set, and `attributes` when there are
    /// any. Every value is a JSON string, quoted and escaped.
    pub fn to_json(&self) -> (r: Result<Vec<u8>, Error>)
        ensures
            r is Err <==> token_builder_check(self@) is Err,
            r matches Err(e) ==> token_builder_check(self@) == Err::<(), Error>(e),
            r matches Ok(j) ==> j@ == json_object(token_json_parts(self@)),
    {
        match self.validate() {
            Ok(()) => {},
            Err(e) => return Err(e),
        }
        let mut parts: Vec<Vec<u8>> = Vec::new();
        parts.push(format_json_field(&literal_bytes("metadata_uri"), &json_string_bytes(&self.metadata_uri)));
        assert(views(parts@) =~= seq![json_field("metadata_uri".spec_bytes(), json_string(self.metadata_uri@))]);
        push_optional_member(&mut parts, "image", &self.image);
        push_optional_member(&mut parts, "animation_url", &self.animation_url);
        push_optional_member(&mut parts, "description", &self.description);
        push_optional_member(&mut parts, "external_url", &self.external_url);
        let ghost before = parts@;
        if self.attributes.len() > 0 {
            let attrs_json = serialize_attributes(&self.attributes);
            parts.push(format_json_field(&literal_bytes("attributes"), &attrs_json));
            assert(views(parts@) =~= views(before) + seq![json_field("attributes".spec_bytes(), attributes_json(self@.attributes))]);
        } else {
            assert(views(parts@) =~= views(before) + Seq::<Seq<u8>>::empty());
        }
        assert(views(parts@) =~= token_json_parts(self@));
        Ok(object_of(&parts))
    }

    /// The environment the builder was made with.
    pub fn env(&self) -> (r: &Env)
        ensures
            *r == self@.env,
    {
        self.env
    }
}

} // verus!
