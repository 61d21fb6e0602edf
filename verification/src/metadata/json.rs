//! The JSON text of metadata documents: fields, comma-joined lists, decimal
//! numbers and attribute arrays, all as bytes.

use vstd::prelude::*;
use vstd::string::StringSliceAdditionalSpecFns;

use crate::bytes::append_bytes;
use crate::metadata::types::{attrs_view, Attribute, AttributeView};

verus! {

/// `"key":value` — the value is JSON text already (a number, a quoted
/// string, an array).
pub open spec fn json_field(key: Seq<u8>, value: Seq<u8>) -> Seq<u8> {
    seq![34u8] + key + seq![34u8, 58u8] + value
}

/// The parts joined with commas.
pub open spec fn join(parts: Seq<Seq<u8>>) -> Seq<u8>
    decreases parts.len(),
{
    if parts.len() == 0 {
        Seq::empty()
    } else if parts.len() == 1 {
        parts[0]
    } else {
        join(parts.drop_last()) + seq![44u8] + parts.last()
    }
}

/// The views of a list of byte vectors.
pub open spec fn views(parts: Seq<Vec<u8>>) -> Seq<Seq<u8>> {
    parts.map_values(|p: Vec<u8>| p@)
}

/// The decimal digits of `n`, most significant first.
pub open spec fn decimal(n: nat) -> Seq<u8>
    decreases n,
{
    if n < 10 {
        seq![(48 + n) as u8]
    } else {
        decimal(n / 10).push((48 + n % 10) as u8)
    }
}

/// The lowercase hexadecimal digit of `n < 16`.
pub open spec fn hex_digit(n: u8) -> u8 {
    if n < 10 { (48 + n) as u8 } else { (87 + n) as u8 }
}

/// How one byte is written inside a JSON string: `"` and `\` escaped with a
/// backslash, line feed, carriage return and tab as `\n`, `\r`, `\t`, other
/// control bytes as `\u00XX`, every other byte as itself.
pub open spec fn escape_byte(b: u8) -> Seq<u8> {
    if b == 34 {
        seq![92u8, 34u8]
    } else if b == 92 {
        seq![92u8, 92u8]
    } else if b == 10 {
        seq![92u8, 110u8]
    } else if b == 13 {
        seq![92u8, 114u8]
    } else if b == 9 {
        seq![92u8, 116u8]
    } else if b < 32 {
        seq![92u8, 117u8, 48u8, 48u8, hex_digit(b / 16), hex_digit(b % 16)]
    } else {
        seq![b]
    }
}

/// The bytes of `s`, each escaped for a JSON string.
pub open spec fn escaped(s: Seq<u8>) -> Seq<u8>
    decreases s.len(),
{
    if s.len() == 0 {
        Seq::empty()
    } else {
        escaped(s.drop_last()) + escape_byte(s.last())
    }
}

/// `s` as a JSON string literal: quoted and escaped.
pub open spec fn json_string(s: Seq<u8>) -> Seq<u8> {
    seq![34u8] + escaped(s) + seq![34u8]
}

/// `{"trait_type":"T","value":"V"}` for an attribute, both strings escaped.
pub open spec fn attribute_json(a: AttributeView) -> Seq<u8> {
    "{\"trait_type\":".spec_bytes() + json_string(a.trait_type) + ",\"value\":".spec_bytes() + json_string(a.value)
        + "}".spec_bytes()
}

/// The JSON array of a list of attributes.
pub open spec fn attributes_json(attrs: Seq<AttributeView>) -> Seq<u8> {
    seq![91u8] + join(attrs.map_values(|a: AttributeView| attribute_json(a))) + seq![93u8]
}

/// A JSON object with the given members, in order.
pub open spec fn json_object(parts: Seq<Seq<u8>>) -> Seq<u8> {
    seq![123u8] + join(parts) + seq![125u8]
}

/// The member `"key":"value"` when the value is present, else nothing.
pub open spec fn optional_member(key: Seq<u8>, value: Option<Seq<u8>>) -> Seq<Seq<u8>> {
    match value {
        Some(v) => seq![json_field(key, json_string(v))],
        None => Seq::empty(),
    }
}

/// The bytes of a string literal.
pub fn literal_bytes(s: &'static str) -> (r: Vec<u8>)
    ensures
        r@ == s.spec_bytes(),
{
    vstd::slice::slice_to_vec(s.as_bytes())
}

/// Append the JSON escape of `b`.
fn push_escaped(out: &mut Vec<u8>, b: u8)
    ensures
        final(out)@ == old(out)@ + escape_byte(b),
{
    let ghost before = out@;
    if b == 34 {
        out.push(92u8);
        out.push(34u8);
    } else if b == 92 {
        out.push(92u8);
        out.push(92u8);
    } else if b == 10 {
        out.push(92u8);
        out.push(110u8);
    } else if b == 13 {
        out.push(92u8);
        out.push(114u8);
    } else if b == 9 {
        out.push(92u8);
        out.push(116u8);
    } else if b < 32 {
        let hi = b / 16;
        let lo = b % 16;
        out.push(92u8);
        out.push(117u8);
        out.push(48u8);
        out.push(48u8);
        out.push(if hi < 10 { 48u8 + hi } else { 87u8 + hi });
        out.push(if lo < 10 { 48u8 + lo } else { 87u8 + lo });
    } else {
        out.push(b);
    }
    assert(out@ =~= before + escape_byte(b));
}

/// `s` as a JSON string literal: quoted, with `"`, `\` and control bytes
/// escaped.
pub fn json_string_bytes(s: &Vec<u8>) -> (r: Vec<u8>)
    ensures
        r@ == json_string(s@),
{
    let mut out: Vec<u8> = vec![34u8];
    let n = s.len();
    let mut i: usize = 0;
    while i < n
        invariant
            n == s@.len(),
            i <= n,
            out@ == seq![34u8] + escaped(s@.take(i as int)),
        decreases n - i,
    {
        let ghost prev = s@.take(i as int);
        assert(s@.take(i + 1).drop_last() =~= prev);
        assert(s@.take(i + 1).last() == s@[i as int]);
        push_escaped(&mut out, s[i]);
        assert(out@ =~= seq![34u8] + escaped(s@.take(i + 1)));
        i = i + 1;
    }
    assert(s@.take(n as int) =~= s@);
    out.push(34u8);
    assert(out@ =~= json_string(s@));
    out
}

/// `"key":value`, with the value written as given.
pub fn format_json_field(key: &Vec<u8>, value: &Vec<u8>) -> (r: Vec<u8>)
    ensures
        r@ == json_field(key@, value@),
{
    let mut r: Vec<u8> = vec![34u8];
    append_bytes(&mut r, key);
    r.push(34u8);
    r.push(58u8);
    append_bytes(&mut r, value);
    assert(r@ =~= json_field(key@, value@));
    r
}

/// The decimal digits of `n`.
pub fn decimal_bytes(n: u32) -> (r: Vec<u8>)
    ensures
        r@ == decimal(n as nat),
    decreases n,
{
    if n < 10 {
        let r = vec![48u8 + n as u8];
        assert(r@ =~= decimal(n as nat));
        r
    } else {
        let mut r = decimal_bytes(n / 10);
        r.push(48u8 + (n % 10) as u8);
        r
    }
}

/// One more part joined onto a prefix.
pub proof fn lemma_join_take(s: Seq<Seq<u8>>, i: int)
    requires
        0 <= i < s.len(),
    ensures
        join(s.take(i + 1)) == if i == 0 { s[0] } else { join(s.take(i)) + seq![44u8] + s[i] },
{
    let t = s.take(i + 1);
    assert(t.drop_last() =~= s.take(i));
    assert(t.last() == s[i]);
    if i == 0 {
        assert(t.len() == 1);
    }
}

/// The parts joined with commas.
pub fn join_parts(parts: &Vec<Vec<u8>>) -> (r: Vec<u8>)
    ensures
        r@ == join(views(parts@)),
{
    let ghost v = views(parts@);
    let mut out: Vec<u8> = Vec::new();
    let n = parts.len();
    let mut i: usize = 0;
    while i < n
        invariant
            n == parts@.len(),
            v == views(parts@),
            i <= n,
            out@ == join(v.take(i as int)),
        decreases n - i,
    {
        proof {
            lemma_join_take(v, i as int);
        }
        assert(v[i as int] == parts@[i as int]@);
        if i > 0 {
            out.push(44u8);
        }
        append_bytes(&mut out, &parts[i]);
        assert(i == 0 ==> join(v.take(i as int)) =~= Seq::<u8>::empty());
        i = i + 1;
    }
    assert(v.take(n as int) =~= v);
    out
}

/// `{` + the parts joined with commas + `}`.
pub fn object_of(parts: &Vec<Vec<u8>>) -> (r: Vec<u8>)
    ensures
        r@ == json_object(views(parts@)),
{
    let mut r: Vec<u8> = vec![123u8];
    let inner = join_parts(parts);
    append_bytes(&mut r, &inner);
    r.push(125u8);
    assert(r@ =~= json_object(views(parts@)));
    r
}

/// The JSON array of a list of attributes.
pub fn serialize_attributes(attributes: &Vec<Attribute>) -> (r: Vec<u8>)
    ensures
        r@ == attributes_json(attrs_view(attributes@)),
{
    let ghost av = attrs_view(attributes@);
    let mut items: Vec<Vec<u8>> = Vec::new();
    let n = attributes.len();
    let mut i: usize = 0;
    let open_t = literal_bytes("{\"trait_type\":");
    let mid = literal_bytes(",\"value\":");
    let close = literal_bytes("}");
    while i < n
        invariant
            n == attributes@.len(),
            av == attrs_view(attributes@),
            i <= n,
            open_t@ == "{\"trait_type\":".spec_bytes(),
            mid@ == ",\"value\":".spec_bytes(),
            close@ == "}".spec_bytes(),
            views(items@) == av.take(i as int).map_values(|a: AttributeView| attribute_json(a)),
        decreases n - i,
    {
        let a = &attributes[i];
        assert(av[i as int] == a@);
        let mut item: Vec<u8> = Vec::new();
        append_bytes(&mut item, &open_t);
        append_bytes(&mut item, &json_string_bytes(&a.trait_type));
        append_bytes(&mut item, &mid);
        append_bytes(&mut item, &json_string_bytes(&a.value));
        append_bytes(&mut item, &close);
        assert(item@ =~= attribute_json(a@));
        let ghost before = items@;
        items.push(item);
        assert(views(items@) =~= views(before).push(attribute_json(av[i as int])));
        assert(av.take(i + 1).map_values(|a: AttributeView| attribute_json(a)) =~= av.take(i as int).map_values(
            |a: AttributeView| attribute_json(a),
        ).push(attribute_json(av[i as int])));
        i = i + 1;
    }
    assert(av.take(n as int) =~= av);
    let mut r: Vec<u8> = vec![91u8];
    let inner = join_parts(&items);
    append_bytes(&mut r, &inner);
    r.push(93u8);
    assert(r@ =~= attributes_json(av));
    r
}

/// The attributes array lists the attribute objects between `[` and `]`,
/// separated by single commas: one attribute gives `[` its object `]`, and
/// each further attribute adds a comma and its object before the `]`. Every
/// object begins with `{` and ends with `}`.
pub proof fn lemma_attributes_json_comma_separated(attrs: Seq<AttributeView>, a: AttributeView)
    ensures
        attributes_json(Seq::<AttributeView>::empty()) == seq![91u8, 93u8],
        attributes_json(seq![a]) == seq![91u8] + attribute_json(a) + seq![93u8],
        attrs.len() > 0 ==> attributes_json(attrs.push(a)) == attributes_json(attrs).drop_last() + seq![44u8]
            + attribute_json(a) + seq![93u8],
        attribute_json(a)[0] == 123u8,
        attribute_json(a).last() == 125u8,
{
    let f = |x: AttributeView| attribute_json(x);
    reveal_strlit("{\"trait_type\":");
    reveal_strlit(",\"value\":");
    reveal_strlit("}");
    let o = "{\"trait_type\":".spec_bytes();
    let c = "}".spec_bytes();
    vstd::string::is_ascii_spec_bytes("{\"trait_type\":");
    vstd::string::is_ascii_spec_bytes("}");
    assert(vstd::string::is_ascii("{\"trait_type\":"));
    assert(vstd::string::is_ascii("}"));
    assert(o.len() == 14 && o[0] == 123u8);
    assert(c.len() == 1 && c[0] == 125u8);
    let aj = o + json_string(a.trait_type) + ",\"value\":".spec_bytes() + json_string(a.value) + c;
    assert(aj == attribute_json(a));
    assert(aj[0] == o[0]);
    assert(aj.last() == c[0]);
    assert(Seq::<AttributeView>::empty().map_values(f) =~= Seq::<Seq<u8>>::empty());
    assert(attributes_json(Seq::<AttributeView>::empty()) =~= seq![91u8, 93u8]);
    assert(seq![a].map_values(f) =~= seq![attribute_json(a)]);
    assert(attributes_json(seq![a]) =~= seq![91u8] + attribute_json(a) + seq![93u8]);
    if attrs.len() > 0 {
        let m = attrs.map_values(f);
        assert(attrs.push(a).map_values(f) =~= m.push(attribute_json(a)));
        assert(m.push(attribute_json(a)).drop_last() =~= m);
        assert(m.push(attribute_json(a)).last() == attribute_json(a));
        let j = join(m);
        assert((seq![91u8] + j + seq![93u8]).drop_last() =~= seq![91u8] + j);
        assert(attributes_json(attrs.push(a)) =~= attributes_json(attrs).drop_last() + seq![44u8] + attribute_json(a)
            + seq![93u8]);
    }
}

} // verus!
