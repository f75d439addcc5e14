//! Elm type declarations for structural types, structs and enums.

use crate::ast::{AtomType, EnumDef, FieldNode, Spec, SpecItem, StructDef, TupleDef, TypeIdent, VariantDef, VariantType};
use crate::names::{field_name, field_name_of};
use crate::text::{grouped, joined, join_parts, opt_parens, views};
use vstd::prelude::*;

verus! {

/// The Elm type of an atom.
pub open spec fn atom_text(a: AtomType) -> Seq<char> {
    match a {
        AtomType::Empty => "()"@,
        AtomType::Str => "String"@,
        AtomType::I32 => "Int"@,
        AtomType::U32 => "Int"@,
        AtomType::U8 => "Int"@,
        AtomType::F64 => "Float"@,
        AtomType::Bool => "Bool"@,
        AtomType::DateTime => "Time.Posix"@,
        AtomType::Date => "Date.Date"@,
    }
}

/// The Elm type of a structural type.
pub open spec fn type_text(t: TypeIdent) -> Seq<char>
    decreases t,
{
    match t {
        TypeIdent::BuiltIn(a) => atom_text(a),
        TypeIdent::List(inner) => "List "@ + grouped(type_text(*inner)),
        TypeIdent::Option(inner) => "Maybe "@ + grouped(type_text(*inner)),
        TypeIdent::Dict(k, v) => "Dict "@ + grouped(type_text(*k)) + " "@ + grouped(type_text(*v)),
        TypeIdent::Tuple(td) => "("@ + joined(type_texts(td.0@), ", "@) + ")"@,
        TypeIdent::UserDefined(id) => id@,
    }
}

/// The Elm types of a sequence of structural types, one for each.
pub open spec fn type_texts(s: Seq<TypeIdent>) -> Seq<Seq<char>>
    decreases s,
{
    if s.len() == 0 {
        Seq::empty()
    } else {
        type_texts(s.subrange(0, s.len() - 1)).push(type_text(s[s.len() - 1]))
    }
}

/// Render an atomic type.
pub fn render_atom(atom: &AtomType) -> (r: String)
    ensures
        r@ == atom_text(*atom),
{
    let s = match atom {
        AtomType::Empty => "()",
        AtomType::Str => "String",
        AtomType::I32 => "Int",
        AtomType::U32 => "Int",
        AtomType::U8 => "Int",
        AtomType::F64 => "Float",
        AtomType::Bool => "Bool",
        AtomType::DateTime => "Time.Posix",
        AtomType::Date => "Date.Date",
    };
    String::from_str(s)
}

/// Render a type identifier.
pub fn render_type_ident(type_ident: &TypeIdent) -> (r: String)
    ensures
        r@ == type_text(*type_ident),
    decreases type_ident,
{
    match type_ident {
        TypeIdent::BuiltIn(atom) => render_atom(atom),
        TypeIdent::List(inner) => {
            let mut r = String::from_str("List ");
            let g = opt_parens(render_type_ident(inner));
            r.append(g.as_str());
            r
        },
        TypeIdent::Option(inner) => {
            let mut r = String::from_str("Maybe ");
            let g = opt_parens(render_type_ident(inner));
            r.append(g.as_str());
            r
        },
        TypeIdent::Dict(key, value) => {
            let mut r = String::from_str("Dict ");
            let k = opt_parens(render_type_ident(key));
            let v = opt_parens(render_type_ident(value));
            r.append(k.as_str());
            r.append(" ");
            r.append(v.as_str());
            r
        },
        TypeIdent::Tuple(tdef) => render_tuple_def(tdef),
        TypeIdent::UserDefined(ident) => ident.clone(),
    }
}

/// Render the Elm types of the components of a tuple, one for each.
fn render_component_types(tdef: &TupleDef) -> (r: Vec<String>)
    ensures
        views(r@) == type_texts(tdef.0@),
    decreases tdef, 0nat,
{
    let comps = tdef.components();
    let mut parts: Vec<String> = Vec::new();
    let mut i: usize = 0;
    while i < comps.len()
        invariant
            comps@ == tdef.0@,
            i <= comps@.len(),
            views(parts@) == type_texts(comps@.subrange(0, i as int)),
        decreases comps@.len() - i,
    {
        proof {
            assert(decreases_to!(tdef => tdef.0));
            assert(decreases_to!(tdef.0 => tdef.0[i as int]));
        }
        let p = render_type_ident(&comps[i]);
        let ghost prev = parts@;
        parts.push(p);
        proof {
            let s = comps@.subrange(0, i as int + 1);
            assert(s.subrange(0, s.len() - 1) =~= comps@.subrange(0, i as int));
            assert(views(parts@) =~= views(prev).push(p@));
        }
        i = i + 1;
    }
    assert(comps@.subrange(0, comps@.len() as int) =~= comps@);
    parts
}

/// Render a tuple definition.
pub fn render_tuple_def(tdef: &TupleDef) -> (r: String)
    ensures
        r@ == "("@ + joined(type_texts(tdef.0@), ", "@) + ")"@,
    decreases tdef, 1nat,
{
    let parts = render_component_types(tdef);
    let mut r = String::from_str("(");
    let j = join_parts(&parts, ", ");
    r.append(j.as_str());
    r.append(")");
    r
}


/// A documentation block, or nothing.
pub open spec fn doc_text(doc: Option<String>) -> Seq<char> {
    match doc {
        Some(ds) => "{-| "@ + ds@ + "\n-}\n"@,
        None => Seq::empty(),
    }
}

/// A record field `name: Type`.
pub open spec fn field_decl_text(f: FieldNode) -> Seq<char> {
    field_name_of(f.name@) + ": "@ + type_text(f.type_ident)
}

/// The record fields of a field list, one for each.
pub open spec fn field_decl_texts(fs: Seq<FieldNode>) -> Seq<Seq<char>> {
    fs.map_values(|f: FieldNode| field_decl_text(f))
}

/// The constructor of a variant.
pub open spec fn variant_decl_text(v: VariantDef) -> Seq<char> {
    match v.variant_type {
        VariantType::Simple => v.name@,
        VariantType::Tuple(td) => v.name@ + " "@ + joined(
            type_texts(td.0@).map_values(|t: Seq<char>| grouped(t)),
            " "@,
        ),
        VariantType::Struct(fs) => v.name@ + " { "@ + joined(field_decl_texts(fs.0@), ", "@)
            + " }"@,
        VariantType::Newtype(t) => v.name@ + " "@ + grouped(type_text(t)),
    }
}

/// The declaration of a struct: a type alias of a record.
pub open spec fn struct_def_text(sdef: StructDef) -> Seq<char> {
    doc_text(sdef.doc_comment) + "type alias "@ + sdef.name@ + " = { "@ + joined(
        field_decl_texts(sdef.fields.0@),
        ", "@,
    ) + " }"@
}

/// The declaration of an enum: a custom type with one constructor per variant.
pub open spec fn enum_def_text(edef: EnumDef) -> Seq<char> {
    doc_text(edef.doc_comment) + "type "@ + edef.name@ + " = "@ + joined(
        edef.variants@.map_values(|v: VariantDef| variant_decl_text(v)),
        " | "@,
    )
}

/// The declarations of the data items of a spec, in order; services have none.
pub open spec fn def_texts(items: Seq<SpecItem>) -> Seq<Seq<char>>
    decreases items.len(),
{
    if items.len() == 0 {
        Seq::empty()
    } else {
        let prev = def_texts(items.drop_last());
        match items.last() {
            SpecItem::StructDef(sdef) => prev.push(struct_def_text(sdef)),
            SpecItem::EnumDef(edef) => prev.push(enum_def_text(edef)),
            SpecItem::ServiceDef(_) => prev,
        }
    }
}

/// All declarations of a spec, a blank line between two.
pub open spec fn defs_text(spec: Spec) -> Seq<char> {
    joined(def_texts(spec.0@), "\n\n"@)
}

/// Render a docstring.
///
/// If not present, renders an empty string.
pub fn render_doc_comment(doc_comment: &Option<String>) -> (r: String)
    ensures
        r@ == doc_text(*doc_comment),
{
    match doc_comment {
        Some(ds) => {
            let mut r = String::from_str("{-| ");
            r.append(ds.as_str());
            r.append("\n-}\n");
            r
        },
        None => String::new(),
    }
}

/// Render a struct field.
pub fn render_struct_field(field: &FieldNode) -> (r: String)
    ensures
        r@ == field_decl_text(*field),
{
    let mut r = field_name(field.name.as_str());
    r.append(": ");
    let t = render_type_ident(&field.type_ident);
    r.append(t.as_str());
    r
}

/// Render the record fields of a field list, one for each.
fn render_struct_fields(fields: &Vec<FieldNode>) -> (r: Vec<String>)
    ensures
        views(r@) == field_decl_texts(fields@),
{
    let mut parts: Vec<String> = Vec::new();
    let mut i: usize = 0;
    while i < fields.len()
        invariant
            i <= fields@.len(),
            views(parts@) =~= field_decl_texts(fields@.subrange(0, i as int)),
        decreases fields@.len() - i,
    {
        let p = render_struct_field(&fields[i]);
        let ghost prev = parts@;
        parts.push(p);
        assert(views(parts@) =~= views(prev).push(p@));
        assert(views(parts@) =~= field_decl_texts(fields@.subrange(0, i as int + 1)));
        i = i + 1;
    }
    assert(fields@.subrange(0, fields@.len() as int) =~= fields@);
    parts
}

/// Render a variant definition.
pub fn render_variant_def(variant: &VariantDef) -> (r: String)
    ensures
        r@ == variant_decl_text(*variant),
{
    match &variant.variant_type {
        VariantType::Simple => variant.name.clone(),
        VariantType::Tuple(fields) => {
            let types = render_component_types(fields);
            let mut grouped_types: Vec<String> = Vec::new();
            let mut i: usize = 0;
            while i < types.len()
                invariant
                    i <= types@.len(),
                    views(types@) == type_texts(fields.0@),
                    views(grouped_types@) =~= views(types@).subrange(0, i as int).map_values(
                        |t: Seq<char>| grouped(t),
                    ),
                decreases types@.len() - i,
            {
                let g = opt_parens(types[i].clone());
                let ghost prev = grouped_types@;
                grouped_types.push(g);
                assert(views(grouped_types@) =~= views(prev).push(g@));
                assert(views(grouped_types@) =~= views(types@).subrange(0, i as int + 1).map_values(
                    |t: Seq<char>| grouped(t),
                ));
                i = i + 1;
            }
            assert(views(types@).subrange(0, types@.len() as int) =~= views(types@));
            let mut r = variant.name.clone();
            r.append(" ");
            let j = join_parts(&grouped_types, " ");
            r.append(j.as_str());
            r
        },
        VariantType::Struct(fields) => {
            let parts = render_struct_fields(fields.iter());
            let mut r = variant.name.clone();
            r.append(" { ");
            let j = join_parts(&parts, ", ");
            r.append(j.as_str());
            r.append(" }");
            r
        },
        VariantType::Newtype(ty) => {
            let mut r = variant.name.clone();
            r.append(" ");
            let g = opt_parens(render_type_ident(ty));
            r.append(g.as_str());
            r
        },
    }
}

/// Render a struct definition.
pub fn render_struct_def(sdef: &StructDef) -> (r: String)
    ensures
        r@ == struct_def_text(*sdef),
{
    let mut r = render_doc_comment(&sdef.doc_comment);
    r.append("type alias ");
    r.append(sdef.name.as_str());
    r.append(" = { ");
    let parts = render_struct_fields(sdef.fields.iter());
    let j = join_parts(&parts, ", ");
    r.append(j.as_str());
    r.append(" }");
    r
}

/// Render an enum definition.
pub fn render_enum_def(edef: &EnumDef) -> (r: String)
    ensures
        r@ == enum_def_text(*edef),
{
    let mut variants: Vec<String> = Vec::new();
    let mut i: usize = 0;
    while i < edef.variants.len()
        invariant
            i <= edef.variants@.len(),
            views(variants@) =~= edef.variants@.subrange(0, i as int).map_values(
                |v: VariantDef| variant_decl_text(v),
            ),
        decreases edef.variants@.len() - i,
    {
        let p = render_variant_def(&edef.variants[i]);
        let ghost prev = variants@;
        variants.push(p);
        assert(views(variants@) =~= views(prev).push(p@));
        assert(views(variants@) =~= edef.variants@.subrange(0, i as int + 1).map_values(
            |v: VariantDef| variant_decl_text(v),
        ));
        i = i + 1;
    }
    assert(edef.variants@.subrange(0, edef.variants@.len() as int) =~= edef.variants@);
    let mut r = render_doc_comment(&edef.doc_comment);
    r.append("type ");
    r.append(edef.name.as_str());
    r.append(" = ");
    let j = join_parts(&variants, " | ");
    r.append(j.as_str());
    r
}

/// Render the declarations of all data items of a spec.
pub fn render_def(spec: &Spec) -> (r: String)
    ensures
        r@ == defs_text(*spec),
{
    let items = spec.iter();
    let mut parts: Vec<String> = Vec::new();
    let mut i: usize = 0;
    while i < items.len()
        invariant
            i <= items@.len(),
            items@ == spec.0@,
            views(parts@) == def_texts(items@.subrange(0, i as int)),
        decreases items@.len() - i,
    {
        let ghost prev = parts@;
        proof {
            let s = items@.subrange(0, i as int + 1);
            assert(s.drop_last() =~= items@.subrange(0, i as int));
        }
        match &items[i] {
            SpecItem::StructDef(sdef) => {
                let p = render_struct_def(sdef);
                parts.push(p);
                assert(views(parts@) =~= views(prev).push(p@));
            },
            SpecItem::EnumDef(edef) => {
                let p = render_enum_def(edef);
                parts.push(p);
                assert(views(parts@) =~= views(prev).push(p@));
            },
            SpecItem::ServiceDef(_) => {},
        }
        i = i + 1;
    }
    assert(items@.subrange(0, items@.len() as int) =~= items@);
    join_parts(&parts, "\n\n")
}

} // verus!
