//! Elm JSON encoders: one expression per structural type, one function per
//! struct and enum.

use crate::ast::{
    AtomType, EnumDef, FieldNode, Spec, SpecItem, StructDef, TupleDef, TypeIdent, VariantDef,
    VariantType,
};
use crate::keys::{
    all_keys_ok, fields_keys_ok, item_keys_ok, keys_ok, lemma_all_keys_index, spec_keys_ok,
    variant_keys_ok, variants_keys_ok,
};
use crate::names::{encoder_name, encoder_name_of, field_name, field_name_of};
use crate::text::{
    arg_name, arg_name_list, arg_name_text, arg_names, grouped, join_parts, joined, opt_parens,
    views,
};
use vstd::prelude::*;

verus! {

/// The encoder of an atom.
pub open spec fn atom_encoder_text(a: AtomType) -> Seq<char> {
    match a {
        AtomType::Empty => "(_ -> E.null)"@,
        AtomType::Str => "E.string"@,
        AtomType::I32 => "E.int"@,
        AtomType::U32 => "E.int"@,
        AtomType::U8 => "E.int"@,
        AtomType::F64 => "E.float"@,
        AtomType::Bool => "E.bool"@,
        AtomType::DateTime => "Iso8601.encode"@,
        AtomType::Date => "encDate"@,
    }
}

/// The encoder expression of a structural type.
pub open spec fn type_encoder_text(t: TypeIdent) -> Seq<char>
    decreases t,
{
    match t {
        TypeIdent::BuiltIn(a) => atom_encoder_text(a),
        TypeIdent::List(inner) => "E.list "@ + grouped(type_encoder_text(*inner)),
        TypeIdent::Option(inner) => "encMaybe "@ + grouped(type_encoder_text(*inner)),
        TypeIdent::Dict(_, v) => "E.dict identity "@ + grouped(type_encoder_text(*v)),
        TypeIdent::Tuple(td) => "\\("@ + joined(arg_names(td.0@.len()), ", "@)
            + ") -> E.list identity [ "@ + joined(component_encodings(td.0@), ", "@) + " ]"@,
        TypeIdent::UserDefined(id) => encoder_name_of(id@),
    }
}

/// The encoding of each positional argument by its component's encoder:
/// the `i`-th encoder applied to `xi`, in order.
pub open spec fn component_encodings(s: Seq<TypeIdent>) -> Seq<Seq<char>>
    decreases s,
{
    if s.len() == 0 {
        Seq::empty()
    } else {
        component_encodings(s.subrange(0, s.len() - 1)).push(
            grouped(type_encoder_text(s[s.len() - 1])) + " "@ + arg_name((s.len() - 1) as nat),
        )
    }
}

/// The object entry of a field: its declared name and its encoded value.
pub open spec fn field_encoder_text(f: FieldNode) -> Seq<char> {
    "(\""@ + f.name@ + "\", "@ + grouped(type_encoder_text(f.type_ident)) + " obj."@
        + field_name_of(f.name@) + ")"@
}

/// The object entries of a field list, one for each field in order.
pub open spec fn field_encoder_texts(fs: Seq<FieldNode>) -> Seq<Seq<char>> {
    fs.map_values(|f: FieldNode| field_encoder_text(f))
}

/// The encoder function of a struct: an object of its fields in order.
pub open spec fn struct_encoder_text(sdef: StructDef) -> Seq<char> {
    encoder_name_of(sdef.name@) + " : "@ + sdef.name@ + " -> E.Value\n"@ + encoder_name_of(
        sdef.name@,
    ) + " obj = E.object ["@ + joined(field_encoder_texts(sdef.fields.0@), ", "@) + "]"@
}

/// The case branch that encodes one variant: a bare string for a simple
/// variant, else an object whose single key is the variant's name.
pub open spec fn variant_branch_text(v: VariantDef) -> Seq<char> {
    match v.variant_type {
        VariantType::Simple => v.name@ + " -> E.string \""@ + v.name@ + "\""@,
        VariantType::Tuple(td) => v.name@ + " "@ + joined(arg_names(td.0@.len()), " "@)
            + " -> E.object [ (\""@ + v.name@ + "\", E.list identity ["@ + joined(
            component_encodings(td.0@),
            ", "@,
        ) + "]) ]"@,
        VariantType::Struct(fs) => v.name@ + " obj -> E.object [ (\""@ + v.name@
            + "\", E.object ["@ + joined(field_encoder_texts(fs.0@), ", "@) + "]) ]"@,
        VariantType::Newtype(t) => v.name@ + " obj -> E.object [ (\""@ + v.name@ + "\", "@
            + grouped(type_encoder_text(t)) + " obj) ]"@,
    }
}

/// A case branch as it stands in the encoder: indented by two spaces.
pub open spec fn indented_branch(v: VariantDef) -> Seq<char> {
    "  "@ + variant_branch_text(v)
}

/// The encoder function of an enum: one case branch per variant, in order.
pub open spec fn enum_encoder_text(edef: EnumDef) -> Seq<char> {
    encoder_name_of(edef.name@) + " : "@ + edef.name@ + " -> E.Value\n"@ + encoder_name_of(
        edef.name@,
    ) + " v = case v of \n"@ + joined(
        edef.variants@.map_values(|v: VariantDef| indented_branch(v)),
        "\n"@,
    ) + "\n"@
}

/// The encoder functions of the data items of a spec, in order.
pub open spec fn item_encoder_texts(items: Seq<SpecItem>) -> Seq<Seq<char>>
    decreases items.len(),
{
    if items.len() == 0 {
        Seq::empty()
    } else {
        let prev = item_encoder_texts(items.drop_last());
        match items.last() {
            SpecItem::StructDef(sdef) => prev.push(struct_encoder_text(sdef)),
            SpecItem::EnumDef(edef) => prev.push(enum_encoder_text(edef)),
            SpecItem::ServiceDef(_) => prev,
        }
    }
}

/// All encoder functions of a spec, a blank line between two.
pub open spec fn encoders_text(spec: Spec) -> Seq<char> {
    joined(item_encoder_texts(spec.0@), "\n\n"@)
}

/// Render an atomic type encoder.
pub fn render_atom_encoder(atom: &AtomType) -> (r: String)
    ensures
        r@ == atom_encoder_text(*atom),
{
    let s = match atom {
        AtomType::Empty => "(_ -> E.null)",
        AtomType::Str => "E.string",
        AtomType::I32 => "E.int",
        AtomType::U32 => "E.int",
        AtomType::U8 => "E.int",
        AtomType::F64 => "E.float",
        AtomType::Bool => "E.bool",
        AtomType::DateTime => "Iso8601.encode",
        AtomType::Date => "encDate",
    };
    String::from_str(s)
}

/// Render a type encoder.
pub fn render_type_encoder(type_ident: &TypeIdent) -> (r: String)
    requires
        keys_ok(*type_ident),
    ensures
        r@ == type_encoder_text(*type_ident),
    decreases type_ident,
{
    match type_ident {
        TypeIdent::BuiltIn(atom) => render_atom_encoder(atom),
        TypeIdent::List(inner) => {
            let mut r = String::from_str("E.list ");
            let g = opt_parens(render_type_encoder(inner));
            r.append(g.as_str());
            r
        },
        TypeIdent::Option(inner) => {
            let mut r = String::from_str("encMaybe ");
            let g = opt_parens(render_type_encoder(inner));
            r.append(g.as_str());
            r
        },
        TypeIdent::Dict(_, value) => {
            let mut r = String::from_str("E.dict identity ");
            let g = opt_parens(render_type_encoder(value));
            r.append(g.as_str());
            r
        },
        TypeIdent::Tuple(tdef) => render_tuple_encoder(tdef),
        TypeIdent::UserDefined(ident) => encoder_name(ident.as_str()),
    }
}

/// Render the encodings of a tuple's positional arguments.
fn render_component_encodings(tdef: &TupleDef) -> (r: Vec<String>)
    requires
        all_keys_ok(tdef.0@),
    ensures
        views(r@) == component_encodings(tdef.0@),
    decreases tdef, 0nat,
{
    let comps = tdef.components();
    let mut parts: Vec<String> = Vec::new();
    let mut i: usize = 0;
    while i < comps.len()
        invariant
            comps@ == tdef.0@,
            all_keys_ok(tdef.0@),
            i <= comps@.len(),
            views(parts@) == component_encodings(comps@.subrange(0, i as int)),
        decreases comps@.len() - i,
    {
        proof {
            assert(decreases_to!(tdef => tdef.0));
            assert(decreases_to!(tdef.0 => tdef.0[i as int]));
            lemma_all_keys_index(comps@, i as int);
        }
        let mut p = opt_parens(render_type_encoder(&comps[i]));
        p.append(" ");
        let a = arg_name_text(i);
        p.append(a.as_str());
        let ghost prev = parts@;
        parts.push(p);
        proof {
            let s = comps@.subrange(0, i as int + 1);
            assert(s.subrange(0, s.len() - 1) =~= comps@.subrange(0, i as int));
            assert(views(parts@) =~= views(prev).push(p@));
        }
        i = i + 1;
    }
    assert(comps@.subrange(0, comps@.len() as int) =~= comps@);
    parts
}

/// Render a tuple encoder.
pub fn render_tuple_encoder(tdef: &TupleDef) -> (r: String)
    requires
        all_keys_ok(tdef.0@),
    ensures
        r@ == type_encoder_text(TypeIdent::Tuple(*tdef)),
    decreases tdef, 1nat,
{
    let args = arg_name_list(tdef.components().len());
    let mut r = String::from_str("\\(");
    let a = join_parts(&args, ", ");
    r.append(a.as_str());
    r.append(") -> E.list identity [ ");
    let encs = render_component_encodings(tdef);
    let e = join_parts(&encs, ", ");
    r.append(e.as_str());
    r.append(" ]");
    r
}

/// Render a field encoder.
pub fn render_field_encoder(field: &FieldNode) -> (r: String)
    requires
        keys_ok(field.type_ident),
    ensures
        r@ == field_encoder_text(*field),
{
    let mut r = String::from_str("(\"");
    r.append(field.name.as_str());
    r.append("\", ");
    let g = opt_parens(render_type_encoder(&field.type_ident));
    r.append(g.as_str());
    r.append(" obj.");
    let n = field_name(field.name.as_str());
    r.append(n.as_str());
    r.append(")");
    r
}

/// Render the object entries of a field list.
fn render_field_encoders(fields: &Vec<FieldNode>) -> (r: Vec<String>)
    requires
        fields_keys_ok(fields@),
    ensures
        views(r@) == field_encoder_texts(fields@),
{
    let mut parts: Vec<String> = Vec::new();
    let mut i: usize = 0;
    while i < fields.len()
        invariant
            i <= fields@.len(),
            fields_keys_ok(fields@),
            views(parts@) =~= field_encoder_texts(fields@.subrange(0, i as int)),
        decreases fields@.len() - i,
    {
        let p = render_field_encoder(&fields[i]);
        let ghost prev = parts@;
        parts.push(p);
        assert(views(parts@) =~= views(prev).push(p@));
        assert(views(parts@) =~= field_encoder_texts(fields@.subrange(0, i as int + 1)));
        i = i + 1;
    }
    assert(fields@.subrange(0, fields@.len() as int) =~= fields@);
    parts
}

/// Render a struct encoder.
pub fn render_struct_encoder(sdef: &StructDef) -> (r: String)
    requires
        fields_keys_ok(sdef.fields.0@),
    ensures
        r@ == struct_encoder_text(*sdef),
{
    let enc_name = encoder_name(sdef.name.as_str());
    let mut r = enc_name.clone();
    r.append(" : ");
    r.append(sdef.name.as_str());
    r.append(" -> E.Value\n");
    r.append(enc_name.as_str());
    r.append(" obj = E.object [");
    let parts = render_field_encoders(sdef.fields.iter());
    let j = join_parts(&parts, ", ");
    r.append(j.as_str());
    r.append("]");
    r
}

/// Render encoding code for variant of enum.
pub fn render_variant_encoder_branch(variant: &VariantDef) -> (r: String)
    requires
        variant_keys_ok(*variant),
    ensures
        r@ == variant_branch_text(*variant),
{
    let mut r = variant.name.clone();
    match &variant.variant_type {
        VariantType::Simple => {
            r.append(" -> E.string \"");
            r.append(variant.name.as_str());
            r.append("\"");
        },
        VariantType::Tuple(tdef) => {
            r.append(" ");
            let args = arg_name_list(tdef.components().len());
            let a = join_parts(&args, " ");
            r.append(a.as_str());
            r.append(" -> E.object [ (\"");
            r.append(variant.name.as_str());
            r.append("\", E.list identity [");
            let encs = render_component_encodings(tdef);
            let e = join_parts(&encs, ", ");
            r.append(e.as_str());
            r.append("]) ]");
        },
        VariantType::Struct(fields) => {
            r.append(" obj -> E.object [ (\"");
            r.append(variant.name.as_str());
            r.append("\", E.object [");
            let parts = render_field_encoders(fields.iter());
            let j = join_parts(&parts, ", ");
            r.append(j.as_str());
            r.append("]) ]");
        },
        VariantType::Newtype(ty) => {
            r.append(" obj -> E.object [ (\"");
            r.append(variant.name.as_str());
            r.append("\", ");
            let g = opt_parens(render_type_encoder(ty));
            r.append(g.as_str());
            r.append(" obj) ]");
        },
    }
    r
}

/// Render an enum encoder.
pub fn render_enum_encoder(edef: &EnumDef) -> (r: String)
    requires
        variants_keys_ok(edef.variants@),
    ensures
        r@ == enum_encoder_text(*edef),
{
    let mut branches: Vec<String> = Vec::new();
    let mut i: usize = 0;
    while i < edef.variants.len()
        invariant
            i <= edef.variants@.len(),
            variants_keys_ok(edef.variants@),
            views(branches@) =~= edef.variants@.subrange(0, i as int).map_values(
                |v: VariantDef| indented_branch(v),
            ),
        decreases edef.variants@.len() - i,
    {
        assert(variant_keys_ok(edef.variants@[i as int]));
        let mut b = String::from_str("  ");
        let branch = render_variant_encoder_branch(&edef.variants[i]);
        b.append(branch.as_str());
        let ghost prev = branches@;
        branches.push(b);
        assert(views(branches@) =~= views(prev).push(b@));
        assert(views(branches@) =~= edef.variants@.subrange(0, i as int + 1).map_values(
            |v: VariantDef| indented_branch(v),
        ));
        i = i + 1;
    }
    assert(edef.variants@.subrange(0, edef.variants@.len() as int) =~= edef.variants@);
    let enc_name = encoder_name(edef.name.as_str());
    let mut r = enc_name.clone();
    r.append(" : ");
    r.append(edef.name.as_str());
    r.append(" -> E.Value\n");
    r.append(enc_name.as_str());
    r.append(" v = case v of \n");
    let j = join_parts(&branches, "\n");
    r.append(j.as_str());
    r.append("\n");
    r
}

/// Render encoder functions for `spec`.
pub fn render_type_encoders(spec: &Spec) -> (r: String)
    requires
        spec_keys_ok(*spec),
    ensures
        r@ == encoders_text(*spec),
{
    let items = spec.iter();
    let mut parts: Vec<String> = Vec::new();
    let mut i: usize = 0;
    while i < items.len()
        invariant
            i <= items@.len(),
            items@ == spec.0@,
            spec_keys_ok(*spec),
            views(parts@) == item_encoder_texts(items@.subrange(0, i as int)),
        decreases items@.len() - i,
    {
        let ghost prev = parts@;
        proof {
            let s = items@.subrange(0, i as int + 1);
            assert(s.drop_last() =~= items@.subrange(0, i as int));
            assert(item_keys_ok(items@[i as int]));
        }
        match &items[i] {
            SpecItem::StructDef(sdef) => {
                let p = render_struct_encoder(sdef);
                parts.push(p);
                assert(views(parts@) =~= views(prev).push(p@));
            },
            SpecItem::EnumDef(edef) => {
                let p = render_enum_encoder(edef);
                parts.push(p);
                assert(views(parts@) =~= views(prev).push(p@));
            },
            SpecItem::ServiceDef(_) => {},
        }
        i = i + 1;
    }
    assert(items@.subrange(0, items@.len() as int) =~= items@);
    join_parts(&parts, "\n\n")
}

} // verus!
