//! The one rule a schema must meet: every map is keyed by strings.

use crate::ast::{AtomType, FieldNode, Spec, SpecItem, TupleDef, TypeIdent, VariantDef, VariantType};
use vstd::prelude::*;

verus! {

/// Whether a type is the string atom, the only map key JSON objects carry.
pub open spec fn is_string_type(t: TypeIdent) -> bool {
    t matches TypeIdent::BuiltIn(AtomType::Str)
}

/// Whether every map inside a type, at any depth, is keyed by strings.
pub open spec fn keys_ok(t: TypeIdent) -> bool
    decreases t,
{
    match t {
        TypeIdent::BuiltIn(_) => true,
        TypeIdent::List(inner) => keys_ok(*inner),
        TypeIdent::Option(inner) => keys_ok(*inner),
        TypeIdent::Dict(k, v) => is_string_type(*k) && keys_ok(*v),
        TypeIdent::Tuple(td) => all_keys_ok(td.0@),
        TypeIdent::UserDefined(_) => true,
    }
}

/// Whether every type of a sequence meets `keys_ok`.
pub open spec fn all_keys_ok(s: Seq<TypeIdent>) -> bool
    decreases s,
{
    if s.len() == 0 {
        true
    } else {
        all_keys_ok(s.subrange(0, s.len() - 1)) && keys_ok(s[s.len() - 1])
    }
}

/// Whether every field's type meets `keys_ok`.
pub open spec fn fields_keys_ok(fs: Seq<FieldNode>) -> bool {
    forall|i: int| 0 <= i < fs.len() ==> keys_ok(#[trigger] fs[i].type_ident)
}

/// Whether the payload of a variant meets `keys_ok`.
pub open spec fn variant_keys_ok(v: VariantDef) -> bool {
    match v.variant_type {
        VariantType::Simple => true,
        VariantType::Tuple(td) => all_keys_ok(td.0@),
        VariantType::Struct(fs) => fields_keys_ok(fs.0@),
        VariantType::Newtype(t) => keys_ok(t),
    }
}

/// Whether every variant of a list meets `variant_keys_ok`.
pub open spec fn variants_keys_ok(vs: Seq<VariantDef>) -> bool {
    forall|i: int| 0 <= i < vs.len() ==> variant_keys_ok(#[trigger] vs[i])
}

/// Whether a spec item meets the map key rule.
pub open spec fn item_keys_ok(item: SpecItem) -> bool {
    match item {
        SpecItem::StructDef(sdef) => fields_keys_ok(sdef.fields.0@),
        SpecItem::EnumDef(edef) => variants_keys_ok(edef.variants@),
        SpecItem::ServiceDef(_) => true,
    }
}

/// Whether a whole spec meets the map key rule.
pub open spec fn spec_keys_ok(spec: Spec) -> bool {
    forall|i: int| 0 <= i < spec.0@.len() ==> item_keys_ok(#[trigger] spec.0@[i])
}

/// Checks `keys_ok` of a type.
pub fn check_type_keys(t: &TypeIdent) -> (r: bool)
    ensures
        r == keys_ok(*t),
    decreases t,
{
    match t {
        TypeIdent::BuiltIn(_) => true,
        TypeIdent::List(inner) => check_type_keys(inner),
        TypeIdent::Option(inner) => check_type_keys(inner),
        TypeIdent::Dict(k, v) => {
            let key_is_string = match &**k {
                TypeIdent::BuiltIn(AtomType::Str) => true,
                _ => false,
            };
            key_is_string && check_type_keys(v)
        },
        TypeIdent::Tuple(td) => check_tuple_keys(td),
        TypeIdent::UserDefined(_) => true,
    }
}

/// Checks `all_keys_ok` of the components of a tuple.
fn check_tuple_keys(td: &TupleDef) -> (r: bool)
    ensures
        r == all_keys_ok(td.0@),
    decreases td,
{
    let comps = td.components();
    let mut i: usize = 0;
    while i < comps.len()
        invariant
            comps@ == td.0@,
            i <= comps@.len(),
            all_keys_ok(comps@.subrange(0, i as int)),
        decreases comps@.len() - i,
    {
        proof {
            let s = comps@.subrange(0, i as int + 1);
            assert(s.subrange(0, s.len() - 1) =~= comps@.subrange(0, i as int));
            assert(decreases_to!(td => td.0));
            assert(decreases_to!(td.0 => td.0[i as int]));
        }
        if !check_type_keys(&comps[i]) {
            proof {
                assert(comps@.subrange(0, comps@.len() as int) =~= comps@);
                if all_keys_ok(comps@) {
                    lemma_all_keys_prefix(comps@, i as int + 1);
                    let s = comps@.subrange(0, i as int + 1);
                    assert(s[s.len() - 1] == comps@[i as int]);
                }
            }
            return false;
        }
        i = i + 1;
    }
    assert(comps@.subrange(0, comps@.len() as int) =~= comps@);
    true
}

/// A sequence whose types all meet `keys_ok` has a prefix that does too.
proof fn lemma_all_keys_prefix(s: Seq<TypeIdent>, n: int)
    requires
        0 <= n <= s.len(),
        all_keys_ok(s),
    ensures
        all_keys_ok(s.subrange(0, n)),
    decreases s.len(),
{
    if n < s.len() {
        let t = s.subrange(0, s.len() - 1);
        lemma_all_keys_prefix(t, n);
        assert(t.subrange(0, n) =~= s.subrange(0, n));
    } else {
        assert(s.subrange(0, n) =~= s);
    }
}

/// Each type of a sequence that meets `all_keys_ok` meets `keys_ok`.
pub proof fn lemma_all_keys_index(s: Seq<TypeIdent>, i: int)
    requires
        0 <= i < s.len(),
        all_keys_ok(s),
    ensures
        keys_ok(s[i]),
{
    lemma_all_keys_prefix(s, i + 1);
    let p = s.subrange(0, i + 1);
    assert(p[p.len() - 1] == s[i]);
}

/// Checks `fields_keys_ok`.
fn check_fields_keys(fields: &Vec<FieldNode>) -> (r: bool)
    ensures
        r == fields_keys_ok(fields@),
{
    let mut i: usize = 0;
    while i < fields.len()
        invariant
            i <= fields@.len(),
            forall|j: int| 0 <= j < i ==> keys_ok(#[trigger] fields@[j].type_ident),
        decreases fields@.len() - i,
    {
        if !check_type_keys(&fields[i].type_ident) {
            return false;
        }
        i = i + 1;
    }
    true
}

/// Checks `variant_keys_ok`.
fn check_variant_keys(v: &VariantDef) -> (r: bool)
    ensures
        r == variant_keys_ok(*v),
{
    match &v.variant_type {
        VariantType::Simple => true,
        VariantType::Tuple(td) => check_tuple_keys(td),
        VariantType::Struct(fs) => check_fields_keys(fs.iter()),
        VariantType::Newtype(t) => check_type_keys(t),
    }
}

/// Checks `variants_keys_ok`.
fn check_variants_keys(vs: &Vec<VariantDef>) -> (r: bool)
    ensures
        r == variants_keys_ok(vs@),
{
    let mut i: usize = 0;
    while i < vs.len()
        invariant
            i <= vs@.len(),
            forall|j: int| 0 <= j < i ==> variant_keys_ok(#[trigger] vs@[j]),
        decreases vs@.len() - i,
    {
        if !check_variant_keys(&vs[i]) {
            return false;
        }
        i = i + 1;
    }
    true
}

/// Checks `item_keys_ok`.
fn check_item_keys(item: &SpecItem) -> (r: bool)
    ensures
        r == item_keys_ok(*item),
{
    match item {
        SpecItem::StructDef(sdef) => check_fields_keys(sdef.fields.iter()),
        SpecItem::EnumDef(edef) => check_variants_keys(&edef.variants),
        SpecItem::ServiceDef(_) => true,
    }
}

/// Checks that every map of a spec is keyed by strings.
pub fn check_spec_keys(spec: &Spec) -> (r: bool)
    ensures
        r == spec_keys_ok(*spec),
{
    let items = spec.iter();
    let mut i: usize = 0;
    while i < items.len()
        invariant
            items@ == spec.0@,
            i <= items@.len(),
            forall|j: int| 0 <= j < i ==> item_keys_ok(#[trigger] items@[j]),
        decreases items@.len() - i,
    {
        if !check_item_keys(&items[i]) {
            return false;
        }
        i = i + 1;
    }
    true
}

} // verus!
