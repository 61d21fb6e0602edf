//! Small helpers on metadata fields and attribute lists.

use vstd::prelude::*;

use crate::env::Env;

use crate::bytes::{bytes_eq, copy_bytes, opt_bytes};
use crate::metadata::types::{attrs_view, copy_attribute, Attribute, AttributeView};

verus! {

/// Whether a field is empty.
pub fn is_empty_string(s: &Vec<u8>) -> (r: bool)
    ensures
        r == (s@.len() == 0),
{
    s.len() == 0
}

/// Whether a byte is ASCII whitespace: space, tab, line feed, form feed or
/// carriage return.
pub open spec fn is_space_byte(b: u8) -> bool {
    b == 32 || b == 9 || b == 10 || b == 12 || b == 13
}

/// Whether a field holds nothing but whitespace; an empty field is blank.
pub open spec fn is_blank(s: Seq<u8>) -> bool {
    forall|i: int| 0 <= i < s.len() ==> is_space_byte(#[trigger] s[i])
}

/// Whether `s` is blank.
fn blank(s: &Vec<u8>) -> (r: bool)
    ensures
        r == is_blank(s@),
{
    let n = s.len();
    let mut i: usize = 0;
    while i < n
        invariant
            n == s@.len(),
            i <= n,
            forall|k: int| 0 <= k < i ==> is_space_byte(#[trigger] s@[k]),
        decreases n - i,
    {
        let b = s[i];
        if !(b == 32 || b == 9 || b == 10 || b == 12 || b == 13) {
            return false;
        }
        i = i + 1;
    }
    true
}

/// An optional field with a blank value treated as absent.
pub open spec fn cleared(field: Option<Seq<u8>>) -> Option<Seq<u8>> {
    match field {
        Some(s) => if is_blank(s) { None } else { Some(s) },
        None => None,
    }
}

/// A copy of an optional field, with an empty or whitespace-only value
/// turned into `None`.
pub fn clear_optional_field(field: &Option<Vec<u8>>) -> (r: Option<Vec<u8>>)
    ensures
        opt_bytes(r) == cleared(opt_bytes(*field)),
{
    match field {
        Some(s) => if blank(s) { None } else { Some(copy_bytes(s)) },
        None => None,
    }
}

/// The URL, unchanged.
pub fn normalize_url(url: &Vec<u8>) -> (r: Vec<u8>)
    ensures
        r@ == url@,
{
    copy_bytes(url)
}

/// The placeholder metadata document, `{}`.
pub fn build_metadata_json(
    env: &Env,
    metadata_uri: &Vec<u8>,
    image: &Option<Vec<u8>>,
    animation_url: &Option<Vec<u8>>,
    description: &Option<Vec<u8>>,
    external_url: &Option<Vec<u8>>,
    attributes: &Vec<Attribute>,
) -> (r: Vec<u8>)
    ensures
        r@ == seq![123u8, 125u8],
{
    let r = vec![123u8, 125u8];
    assert(r@ =~= seq![123u8, 125u8]);
    r
}

/// Whether two attributes share a trait type.
pub open spec fn duplicate_traits(attrs: Seq<AttributeView>) -> bool {
    exists|i: int, j: int| 0 <= i < j < attrs.len() && #[trigger] attrs[i].trait_type == #[trigger] attrs[j].trait_type
}

/// Whether two attributes of the list share a trait type.
pub fn has_duplicate_traits(attributes: &Vec<Attribute>) -> (r: bool)
    ensures
        r == duplicate_traits(attrs_view(attributes@)),
{
    let ghost v = attrs_view(attributes@);
    let n = attributes.len();
    let mut i: usize = 0;
    while i < n
        invariant
            n == attributes@.len(),
            v == attrs_view(attributes@),
            i <= n,
            forall|a: int, b: int| 0 <= a < i && a < b < n ==> v[a].trait_type != v[b].trait_type,
        decreases n - i,
    {
        let mut j: usize = i + 1;
        while j < n
            invariant
                n == attributes@.len(),
                v == attrs_view(attributes@),
                i < n,
                i + 1 <= j <= n,
                forall|a: int, b: int| 0 <= a < i && a < b < n ==> v[a].trait_type != v[b].trait_type,
                forall|b: int| i < b < j ==> v[i as int].trait_type != v[b].trait_type,
            decreases n - j,
        {
            if bytes_eq(&attributes[i].trait_type, &attributes[j].trait_type) {
                assert(v[i as int].trait_type == v[j as int].trait_type);
                return true;
            }
            j = j + 1;
        }
        i = i + 1;
    }
    proof {
        if duplicate_traits(v) {
            let (a, b) = choose|a: int, b: int| 0 <= a < b < v.len() && #[trigger] v[a].trait_type == #[trigger] v[b].trait_type;
            assert(v[a].trait_type != v[b].trait_type);
        }
    }
    false
}

/// Whether an attribute has both a trait type and a value.
pub open spec fn non_empty_attribute(a: AttributeView) -> bool {
    a.trait_type.len() > 0 && a.value.len() > 0
}

/// Whether an attribute has a trait type or a value.
pub open spec fn non_vacant_attribute(a: AttributeView) -> bool {
    a.trait_type.len() > 0 || a.value.len() > 0
}

/// Whether `a` is kept: with `both`, when it has a trait type and a value;
/// otherwise when it has either.
pub open spec fn kept_attribute(a: AttributeView, both: bool) -> bool {
    if both { non_empty_attribute(a) } else { non_vacant_attribute(a) }
}

/// The attributes that [`kept_attribute`] keeps, in order.
fn keep_attributes(attributes: &Vec<Attribute>, both: bool) -> (r: Vec<Attribute>)
    ensures
        attrs_view(r@) == attrs_view(attributes@).filter(|a: AttributeView| kept_attribute(a, both)),
{
    let ghost pred = |a: AttributeView| kept_attribute(a, both);
    let mut out: Vec<Attribute> = Vec::new();
    let n = attributes.len();
    let mut i: usize = 0;
    while i < n
        invariant
            n == attributes@.len(),
            i <= n,
            pred == (|a: AttributeView| kept_attribute(a, both)),
            attrs_view(out@) == attrs_view(attributes@).take(i as int).filter(pred),
        decreases n - i,
    {
        let ghost v = attrs_view(attributes@);
        proof {
            v.lemma_take_succ_push(i as int);
            v.take(i as int).lemma_filter_push(v[i as int], pred);
        }
        let a = &attributes[i];
        let has_trait = a.trait_type.len() > 0;
        let has_value = a.value.len() > 0;
        let keep = if both { has_trait && has_value } else { has_trait || has_value };
        if keep {
            let ghost before = out@;
            out.push(copy_attribute(a));
            assert(attrs_view(out@) =~= attrs_view(before).push(v[i as int]));
        }
        i = i + 1;
    }
    proof {
        attrs_view(attributes@).lemma_take_len();
    }
    out
}

/// The attributes with both a trait type and a value, in order.
pub fn filter_empty_attributes(env: &Env, attributes: &Vec<Attribute>) -> (r: Vec<Attribute>)
    ensures
        attrs_view(r@) == attrs_view(attributes@).filter(|a: AttributeView| non_empty_attribute(a)),
{
    let r = keep_attributes(attributes, true);
    assert((|a: AttributeView| kept_attribute(a, true)) =~= (|a: AttributeView| non_empty_attribute(a)));
    r
}

/// The attributes with a trait type or a value, in order: those with
/// neither are dropped.
pub fn filter_vacant_attributes(attributes: &Vec<Attribute>) -> (r: Vec<Attribute>)
    ensures
        attrs_view(r@) == attrs_view(attributes@).filter(|a: AttributeView| non_vacant_attribute(a)),
{
    let r = keep_attributes(attributes, false);
    assert((|a: AttributeView| kept_attribute(a, false)) =~= (|a: AttributeView| non_vacant_attribute(a)));
    r
}

} // verus!
