//! Elm JSON decoders: one expression per structural type, one function per
//! struct and enum.

use crate::ast::{
    complex_of, derefs, simple_of, AtomType, EnumDef, FieldNode, Spec, SpecItem, StructDef,
    TupleDef, TypeIdent, VariantDef, VariantType,
};
use crate::keys::{
    all_keys_ok, fields_keys_ok, keys_ok, lemma_all_keys_index, spec_keys_ok, variant_keys_ok,
    variants_keys_ok, item_keys_ok,
};
use crate::names::{
    decoder_name, decoder_name_of, enum_string_decoder_name, field_name, field_name_of,
    parser_name_of,
};
use crate::text::{
    arg_name, arg_name_list, arg_name_text, arg_names, decimal, decimal_text, grouped, join_parts,
    joined, opt_parens, views,
};
use vstd::prelude::*;

verus! {

/// The decoder of an atom.
pub open spec fn atom_decoder_text(a: AtomType) -> Seq<char> {
    match a {
        AtomType::Empty => "(D.succeed ())"@,
        AtomType::Str => "D.string"@,
        AtomType::I32 => "D.int"@,
        AtomType::U32 => "D.int"@,
        AtomType::U8 => "D.int"@,
        AtomType::F64 => "D.float"@,
        AtomType::Bool => "D.bool"@,
        AtomType::DateTime => "Iso8601.decoder"@,
        AtomType::Date => "dateDecoder"@,
    }
}

/// The decoder expression of a structural type.
pub open spec fn type_decoder_text(t: TypeIdent) -> Seq<char>
    decreases t,
{
    match t {
        TypeIdent::BuiltIn(a) => atom_decoder_text(a),
        TypeIdent::List(inner) => "D.list "@ + grouped(type_decoder_text(*inner)),
        TypeIdent::Option(inner) => "D.maybe "@ + grouped(type_decoder_text(*inner)),
        TypeIdent::Dict(_, v) => "D.dict "@ + grouped(type_decoder_text(*v)),
        TypeIdent::Tuple(td) => "D.succeed (\\"@ + joined(arg_names(td.0@.len()), " "@) + " -> ("@
            + joined(arg_names(td.0@.len()), ", "@) + ")) "@ + joined(index_steps(td.0@), " "@),
        TypeIdent::UserDefined(id) => decoder_name_of(id@),
    }
}

/// One pipeline step per component: component `i` is read from array index `i`.
pub open spec fn index_steps(s: Seq<TypeIdent>) -> Seq<Seq<char>>
    decreases s,
{
    if s.len() == 0 {
        Seq::empty()
    } else {
        index_steps(s.subrange(0, s.len() - 1)).push(
            "|> requiredIdx "@ + decimal((s.len() - 1) as nat) + " "@ + grouped(
                type_decoder_text(s[s.len() - 1]),
            ),
        )
    }
}

/// The pipeline step that reads a required field by its declared name.
pub open spec fn field_decoder_text(f: FieldNode) -> Seq<char> {
    "|> required \""@ + f.name@ + "\" "@ + grouped(type_decoder_text(f.type_ident))
}

/// The pipeline steps of a field list, one for each field in order.
pub open spec fn field_decoder_texts(fs: Seq<FieldNode>) -> Seq<Seq<char>> {
    fs.map_values(|f: FieldNode| field_decoder_text(f))
}

/// The record assignments `field = xi`, one for each field in order.
pub open spec fn field_assignments(fs: Seq<FieldNode>) -> Seq<Seq<char>> {
    Seq::new(fs.len(), |i: int| field_name_of(fs[i].name@) + " = "@ + arg_name(i as nat))
}

/// The decoder function of a struct.
pub open spec fn struct_decoder_text(sdef: StructDef) -> Seq<char> {
    decoder_name_of(sdef.name@) + " : D.Decoder "@ + sdef.name@ + " \n"@ + decoder_name_of(
        sdef.name@,
    ) + " = D.succeed "@ + sdef.name@ + " "@ + joined(field_decoder_texts(sdef.fields.0@), " "@)
}

/// The decoder of the payload of a variant that has one.
pub open spec fn variant_decoder_text(v: VariantDef) -> Seq<char> {
    match v.variant_type {
        VariantType::Simple => Seq::empty(),
        VariantType::Tuple(td) => "D.succeed "@ + v.name@ + " "@ + joined(index_steps(td.0@), " "@),
        VariantType::Struct(fs) => "D.succeed (\\"@ + joined(arg_names(fs.0@.len()), " "@) + " -> "@
            + v.name@ + " { "@ + joined(field_assignments(fs.0@), ", "@) + " }) "@ + joined(
            field_decoder_texts(fs.0@),
            " "@,
        ),
        VariantType::Newtype(t) => "D.map "@ + v.name@ + " "@ + grouped(type_decoder_text(t)),
    }
}

/// The alternative that reads a variant with a payload from an object whose
/// single key is the variant's name.
pub open spec fn variant_alternative_text(v: VariantDef) -> Seq<char> {
    "D.field \""@ + v.name@ + "\" "@ + grouped(variant_decoder_text(v))
}

/// The alternative that reads the simple variants of an enum from a string,
/// or nothing where the enum has none.
pub open spec fn string_alternative_text(edef: EnumDef) -> Seq<char> {
    if simple_of(edef.variants@).len() > 0 {
        "unwrapDecoder (D.map "@ + parser_name_of(edef.name@) + " D.string)"@ + if complex_of(
            edef.variants@,
        ).len() > 0 {
            ", "@
        } else {
            Seq::empty()
        }
    } else {
        Seq::empty()
    }
}

/// The tagged-object alternatives of an enum, one per variant with a payload.
pub open spec fn object_alternatives(edef: EnumDef) -> Seq<Seq<char>> {
    complex_of(edef.variants@).map_values(|v: VariantDef| variant_alternative_text(v))
}

/// The decoder function of an enum: the string alternative first, then the
/// tagged objects in declaration order; the first that succeeds wins.
pub open spec fn enum_decoder_text(edef: EnumDef) -> Seq<char> {
    decoder_name_of(edef.name@) + " : D.Decoder "@ + edef.name@ + " \n"@ + decoder_name_of(
        edef.name@,
    ) + " = D.oneOf ["@ + string_alternative_text(edef) + " "@ + joined(
        object_alternatives(edef),
        ", "@,
    ) + "]\n"@
}

/// The decoder functions of the data items of a spec, in order.
pub open spec fn item_decoder_texts(items: Seq<SpecItem>) -> Seq<Seq<char>>
    decreases items.len(),
{
    if items.len() == 0 {
        Seq::empty()
    } else {
        let prev = item_decoder_texts(items.drop_last());
        match items.last() {
            SpecItem::StructDef(sdef) => prev.push(struct_decoder_text(sdef)),
            SpecItem::EnumDef(edef) => prev.push(enum_decoder_text(edef)),
            SpecItem::ServiceDef(_) => prev,
        }
    }
}

/// All decoder functions of a spec, a blank line between two.
pub open spec fn decoders_text(spec: Spec) -> Seq<char> {
    joined(item_decoder_texts(spec.0@), "\n\n"@)
}

/// Render a decoder for an atomic type.
pub fn render_atom_decoder(atom: &AtomType) -> (r: String)
    ensures
        r@ == atom_decoder_text(*atom),
{
    let s = match atom {
        AtomType::Empty => "(D.succeed ())",
        AtomType::Str => "D.string",
        AtomType::I32 => "D.int",
        AtomType::U32 => "D.int",
        AtomType::U8 => "D.int",
        AtomType::F64 => "D.float",
        AtomType::Bool => "D.bool",
        AtomType::DateTime => "Iso8601.decoder",
        AtomType::Date => "dateDecoder",
    };
    String::from_str(s)
}

/// Render a decoder for a type.
pub fn render_type_decoder(type_ident: &TypeIdent) -> (r: String)
    requires
        keys_ok(*type_ident),
    ensures
        r@ == type_decoder_text(*type_ident),
    decreases type_ident,
{
    match type_ident {
        TypeIdent::BuiltIn(atom) => render_atom_decoder(atom),
        TypeIdent::List(inner) => {
            let mut r = String::from_str("D.list ");
            let g = opt_parens(render_type_decoder(inner));
            r.append(g.as_str());
            r
        },
        TypeIdent::Option(inner) => {
            let mut r = String::from_str("D.maybe ");
            let g = opt_parens(render_type_decoder(inner));
            r.append(g.as_str());
            r
        },
        TypeIdent::Dict(_, value) => {
            let mut r = String::from_str("D.dict ");
            let g = opt_parens(render_type_decoder(value));
            r.append(g.as_str());
            r
        },
        TypeIdent::Tuple(tdef) => render_tuple_decoder(tdef),
        TypeIdent::UserDefined(ident) => decoder_name(ident.as_str()),
    }
}

/// Render a decoder for a tuple.
pub fn render_tuple_decoder(tdef: &TupleDef) -> (r: String)
    requires
        all_keys_ok(tdef.0@),
    ensures
        r@ == type_decoder_text(TypeIdent::Tuple(*tdef)),
    decreases tdef, 1nat,
{
    let len = tdef.components().len();
    let parts = arg_name_list(len);
    let mut r = String::from_str("D.succeed (\\");
    let from = join_parts(&parts, " ");
    r.append(from.as_str());
    r.append(" -> (");
    let to = join_parts(&parts, ", ");
    r.append(to.as_str());
    r.append(")) ");
    let steps = render_components_by_index_pipeline(tdef);
    r.append(steps.as_str());
    r
}

/// Render a pipeline that decodes tuple fields by index.
pub fn render_components_by_index_pipeline(tdef: &TupleDef) -> (r: String)
    requires
        all_keys_ok(tdef.0@),
    ensures
        r@ == joined(index_steps(tdef.0@), " "@),
    decreases tdef, 0nat,
{
    let comps = tdef.components();
    let mut parts: Vec<String> = Vec::new();
    let mut i: usize = 0;
    while i < comps.len()
        invariant
            comps@ == tdef.0@,
            all_keys_ok(tdef.0@),
            i <= comps@.len(),
            views(parts@) == index_steps(comps@.subrange(0, i as int)),
        decreases comps@.len() - i,
    {
        proof {
            assert(decreases_to!(tdef => tdef.0));
            assert(decreases_to!(tdef.0 => tdef.0[i as int]));
            lemma_all_keys_index(comps@, i as int);
        }
        let mut p = String::from_str("|> requiredIdx ");
        let idx = decimal_text(i);
        p.append(idx.as_str());
        p.append(" ");
        let g = opt_parens(render_type_decoder(&comps[i]));
        p.append(g.as_str());
        let ghost prev = parts@;
        parts.push(p);
        proof {
            let s = comps@.subrange(0, i as int + 1);
            assert(s.subrange(0, s.len() - 1) =~= comps@.subrange(0, i as int));
            assert(views(parts@) =~= views(prev).push(p@));
        }
        i = i + 1;
    }
    assert(comps@.subrange(0, comps@.len() as int) =~= comps@);
    join_parts(&parts, " ")
}

/// Render decoder for a field.
pub fn render_field_decoder(field: &FieldNode) -> (r: String)
    requires
        keys_ok(field.type_ident),
    ensures
        r@ == field_decoder_text(*field),
{
    let mut r = String::from_str("|> required \"");
    r.append(field.name.as_str());
    r.append("\" ");
    let g = opt_parens(render_type_decoder(&field.type_ident));
    r.append(g.as_str());
    r
}

/// Render the pipeline steps of a field list.
fn render_field_decoders(fields: &Vec<FieldNode>) -> (r: Vec<String>)
    requires
        fields_keys_ok(fields@),
    ensures
        views(r@) == field_decoder_texts(fields@),
{
    let mut parts: Vec<String> = Vec::new();
    let mut i: usize = 0;
    while i < fields.len()
        invariant
            i <= fields@.len(),
            fields_keys_ok(fields@),
            views(parts@) =~= field_decoder_texts(fields@.subrange(0, i as int)),
        decreases fields@.len() - i,
    {
        let p = render_field_decoder(&fields[i]);
        let ghost prev = parts@;
        parts.push(p);
        assert(views(parts@) =~= views(prev).push(p@));
        assert(views(parts@) =~= field_decoder_texts(fields@.subrange(0, i as int + 1)));
        i = i + 1;
    }
    assert(fields@.subrange(0, fields@.len() as int) =~= fields@);
    parts
}

/// Render decoder for a struct.
pub fn render_struct_decoder(sdef: &StructDef) -> (r: String)
    requires
        fields_keys_ok(sdef.fields.0@),
    ensures
        r@ == struct_decoder_text(*sdef),
{
    let dec_name = decoder_name(sdef.name.as_str());
    let mut r = dec_name.clone();
    r.append(" : D.Decoder ");
    r.append(sdef.name.as_str());
    r.append(" \n");
    r.append(dec_name.as_str());
    r.append(" = D.succeed ");
    r.append(sdef.name.as_str());
    r.append(" ");
    let parts = render_field_decoders(sdef.fields.iter());
    let j = join_parts(&parts, " ");
    r.append(j.as_str());
    r
}

/// Render the record assignments of a struct variant's constructor.
fn render_field_assignments(fields: &Vec<FieldNode>) -> (r: Vec<String>)
    ensures
        views(r@) == field_assignments(fields@),
{
    let mut parts: Vec<String> = Vec::new();
    let mut i: usize = 0;
    while i < fields.len()
        invariant
            i <= fields@.len(),
            views(parts@) =~= field_assignments(fields@).subrange(0, i as int),
        decreases fields@.len() - i,
    {
        let mut p = field_name(fields[i].name.as_str());
        p.append(" = ");
        let a = arg_name_text(i);
        p.append(a.as_str());
        let ghost prev = parts@;
        parts.push(p);
        assert(views(parts@) =~= views(prev).push(p@));
        assert(views(parts@) =~= field_assignments(fields@).subrange(0, i as int + 1));
        i = i + 1;
    }
    assert(field_assignments(fields@).subrange(0, fields@.len() as int) =~= field_assignments(
        fields@,
    ));
    parts
}

/// Render decoder for an enum variant with a payload.
pub fn render_variant_decoder(variant: &VariantDef) -> (r: String)
    requires
        !(variant.variant_type is Simple),
        variant_keys_ok(*variant),
    ensures
        r@ == variant_decoder_text(*variant),
{
    match &variant.variant_type {
        VariantType::Simple => String::new(),
        VariantType::Tuple(components) => {
            let mut r = String::from_str("D.succeed ");
            r.append(variant.name.as_str());
            r.append(" ");
            let steps = render_components_by_index_pipeline(components);
            r.append(steps.as_str());
            r
        },
        VariantType::Struct(fields) => {
            let args = arg_name_list(fields.0.len());
            let mut r = String::from_str("D.succeed (\\");
            let a = join_parts(&args, " ");
            r.append(a.as_str());
            r.append(" -> ");
            r.append(variant.name.as_str());
            r.append(" { ");
            let assignments = render_field_assignments(fields.iter());
            let s = join_parts(&assignments, ", ");
            r.append(s.as_str());
            r.append(" }) ");
            let decs = render_field_decoders(fields.iter());
            let d = join_parts(&decs, " ");
            r.append(d.as_str());
            r
        },
        VariantType::Newtype(ty) => {
            let mut r = String::from_str("D.map ");
            r.append(variant.name.as_str());
            r.append(" ");
            let g = opt_parens(render_type_decoder(ty));
            r.append(g.as_str());
            r
        },
    }
}

/// Render decoder for an enum.
pub fn render_enum_decoder(edef: &EnumDef) -> (r: String)
    requires
        variants_keys_ok(edef.variants@),
    ensures
        r@ == enum_decoder_text(*edef),
{
    let simple = edef.simple_variants();
    let complex = edef.complex_variants();
    let optional_string_decoder = if simple.len() > 0 {
        let mut s = String::from_str("unwrapDecoder (D.map ");
        let parser = enum_string_decoder_name(edef.name.as_str());
        s.append(parser.as_str());
        s.append(" D.string)");
        if complex.len() > 0 {
            s.append(", ");
        }
        s
    } else {
        String::new()
    };
    let mut fields: Vec<String> = Vec::new();
    let mut i: usize = 0;
    while i < complex.len()
        invariant
            i <= complex@.len(),
            derefs(complex@) == complex_of(edef.variants@),
            variants_keys_ok(edef.variants@),
            views(fields@) =~= derefs(complex@).subrange(0, i as int).map_values(
                |v: VariantDef| variant_alternative_text(v),
            ),
        decreases complex@.len() - i,
    {
        let variant: &VariantDef = complex[i];
        proof {
            let pred = |v: VariantDef| crate::ast::is_complex_variant(v);
            assert(derefs(complex@)[i as int] == *variant);
            edef.variants@.lemma_filter_pred(pred, i as int);
            assert(complex_of(edef.variants@).contains(*variant));
            edef.variants@.lemma_filter_contains_rev(pred, *variant);
            let j = choose|j: int| 0 <= j < edef.variants@.len() && edef.variants@[j] == *variant;
            assert(variant_keys_ok(edef.variants@[j]));
        }
        let mut f = String::from_str("D.field \"");
        f.append(variant.name.as_str());
        f.append("\" ");
        let g = opt_parens(render_variant_decoder(variant));
        f.append(g.as_str());
        let ghost prev = fields@;
        fields.push(f);
        assert(views(fields@) =~= views(prev).push(f@));
        assert(views(fields@) =~= derefs(complex@).subrange(0, i as int + 1).map_values(
            |v: VariantDef| variant_alternative_text(v),
        ));
        i = i + 1;
    }
    assert(derefs(complex@).subrange(0, complex@.len() as int) =~= derefs(complex@));
    let dec_name = decoder_name(edef.name.as_str());
    let mut r = dec_name.clone();
    r.append(" : D.Decoder ");
    r.append(edef.name.as_str());
    r.append(" \n");
    r.append(dec_name.as_str());
    r.append(" = D.oneOf [");
    r.append(optional_string_decoder.as_str());
    r.append(" ");
    let j = join_parts(&fields, ", ");
    r.append(j.as_str());
    r.append("]\n");
    r
}

/// Render decoders for a spec.
pub fn render_type_decoders(spec: &Spec) -> (r: String)
    requires
        spec_keys_ok(*spec),
    ensures
        r@ == decoders_text(*spec),
{
    let items = spec.iter();
    let mut parts: Vec<String> = Vec::new();
    let mut i: usize = 0;
    while i < items.len()
        invariant
            i <= items@.len(),
            items@ == spec.0@,
            spec_keys_ok(*spec),
            views(parts@) == item_decoder_texts(items@.subrange(0, i as int)),
        decreases items@.len() - i,
    {
        let ghost prev = parts@;
        proof {
            let s = items@.subrange(0, i as int + 1);
            assert(s.drop_last() =~= items@.subrange(0, i as int));
            assert(item_keys_ok(items@[i as int]));
        }
        match &items[i] {
            SpecItem::StructDef(sdef) => {
                let p = render_struct_decoder(sdef);
                parts.push(p);
                assert(views(parts@) =~= views(prev).push(p@));
            },
            SpecItem::EnumDef(edef) => {
                let p = render_enum_decoder(edef);
                parts.push(p);
                assert(views(parts@) =~= views(prev).push(p@));
            },
            SpecItem::ServiceDef(_) => {},
        }
        i = i + 1;
    }
    assert(items@.subrange(0, items@.len() as int) =~= items@);
    join_parts(&parts, "\n\n")
}

} // verus!
