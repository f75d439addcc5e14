//! Laws that relate the renderers to one another.

use crate::ast::{simple_of, EnumDef, FieldNode, Spec, TypeIdent};
use crate::decode::{
    enum_decoder_text, field_decoder_texts, index_steps, string_alternative_text,
    type_decoder_text,
};
use crate::encode::{component_encodings, field_encoder_texts, type_encoder_text};
use crate::keys::{fields_keys_ok, is_string_type, item_keys_ok, keys_ok};
use crate::module::{rendered, RenderError};
use crate::names::{decoder_name_of, decoder_stem, encoder_stem, field_name_of, parser_name_of};
use crate::text::{arg_name, decimal, grouped};
use vstd::prelude::*;

verus! {

/// Rendering is a function of the spec alone: two equal specs give the same
/// module, or fail in the same way.
pub proof fn lemma_render_deterministic(a: Spec, b: Spec)
    requires
        a == b,
    ensures
        rendered(a) == rendered(b),
{
}

/// Distinct identifiers are handed to the casing as distinct texts, both for
/// decoder names and for encoder names.
pub proof fn lemma_name_stems_injective(a: Seq<char>, b: Seq<char>)
    requires
        a != b,
    ensures
        decoder_stem(a) != decoder_stem(b),
        encoder_stem(a) != encoder_stem(b),
{
    if decoder_stem(a) == decoder_stem(b) {
        assert(decoder_stem(a).len() == a.len() + "Decoder"@.len());
        assert(decoder_stem(b).len() == b.len() + "Decoder"@.len());
        assert(a.len() == b.len());
        assert forall|k: int| 0 <= k < a.len() implies a[k] == b[k] by {
            assert(decoder_stem(a)[k] == a[k]);
            assert(decoder_stem(b)[k] == b[k]);
        }
        assert(a =~= b);
    }
    if encoder_stem(a) == encoder_stem(b) {
        let n = "encode"@.len() as int;
        assert(encoder_stem(a).len() == n + a.len());
        assert(encoder_stem(b).len() == n + b.len());
        assert(a.len() == b.len());
        assert forall|k: int| 0 <= k < a.len() implies a[k] == b[k] by {
            assert(encoder_stem(a)[n + k] == a[k]);
            assert(encoder_stem(b)[n + k] == b[k]);
        }
        assert(a =~= b);
    }
}

/// In the decoder of an enum with a simple variant, the alternative that
/// reads a bare string comes first, before any tagged object.
pub proof fn lemma_string_alternative_first(edef: EnumDef)
    requires
        simple_of(edef.variants@).len() > 0,
    ensures
        exists|tail: Seq<char>|
            enum_decoder_text(edef) == decoder_name_of(edef.name@) + " : D.Decoder "@ + edef.name@
                + " \n"@ + decoder_name_of(edef.name@) + " = D.oneOf ["@ + "unwrapDecoder (D.map "@
                + parser_name_of(edef.name@) + " D.string)"@ + tail,
{
    let n = edef.name@;
    let head = decoder_name_of(n) + " : D.Decoder "@ + n + " \n"@ + decoder_name_of(n)
        + " = D.oneOf ["@;
    let alt = "unwrapDecoder (D.map "@ + parser_name_of(n) + " D.string)"@;
    let sep = string_alternative_text(edef).subrange(alt.len() as int,
        string_alternative_text(edef).len() as int);
    assert(string_alternative_text(edef) =~= alt + sep);
    let tail = enum_decoder_text(edef).subrange((head.len() + alt.len()) as int,
        enum_decoder_text(edef).len() as int);
    assert(enum_decoder_text(edef) =~= head + "unwrapDecoder (D.map "@ + parser_name_of(n)
        + " D.string)"@ + tail);
}

/// A spec with a struct field whose map is keyed by anything but a string
/// fails to render, with that reason.
pub proof fn lemma_non_string_key_rejected(spec: Spec, i: int, j: int)
    requires
        0 <= i < spec.0@.len(),
        spec.0@[i] is StructDef,
        0 <= j < spec.0@[i]->StructDef_0.fields.0@.len(),
        spec.0@[i]->StructDef_0.fields.0@[j].type_ident is Dict,
        !is_string_type(*spec.0@[i]->StructDef_0.fields.0@[j].type_ident->Dict_0),
    ensures
        rendered(spec) == Err::<Seq<char>, RenderError>(RenderError::MapKeyNotString),
{
    let fs = spec.0@[i]->StructDef_0.fields.0@;
    assert(!keys_ok(fs[j].type_ident));
    assert(!fields_keys_ok(fs));
    assert(!item_keys_ok(spec.0@[i]));
}

/// Tuples are read and written by position: the decoder reads component `i`
/// from array index `i` with that component's decoder, and the encoder writes
/// the `i`-th argument with that component's encoder, as the `i`-th element.
pub proof fn lemma_tuple_positions_agree(s: Seq<TypeIdent>, i: int)
    requires
        0 <= i < s.len(),
    ensures
        index_steps(s).len() == s.len(),
        component_encodings(s).len() == s.len(),
        index_steps(s)[i] == "|> requiredIdx "@ + decimal(i as nat) + " "@ + grouped(
            type_decoder_text(s[i]),
        ),
        component_encodings(s)[i] == grouped(type_encoder_text(s[i])) + " "@ + arg_name(i as nat),
    decreases s.len(),
{
    let p = s.subrange(0, s.len() - 1);
    if i < s.len() - 1 {
        lemma_tuple_positions_agree(p, i);
        assert(p[i] == s[i]);
    } else if s.len() > 1 {
        lemma_tuple_positions_agree(p, 0);
    } else {
        assert(p.len() == 0);
        assert(index_steps(p).len() == 0);
        assert(component_encodings(p).len() == 0);
    }
}

/// Structs are read and written by field name in declaration order: the
/// `i`-th decoder step requires the `i`-th field's declared name, and the
/// `i`-th encoded entry carries that same name.
pub proof fn lemma_struct_fields_agree(fs: Seq<FieldNode>, i: int)
    requires
        0 <= i < fs.len(),
    ensures
        field_decoder_texts(fs).len() == fs.len(),
        field_encoder_texts(fs).len() == fs.len(),
        field_decoder_texts(fs)[i] == "|> required \""@ + fs[i].name@ + "\" "@ + grouped(
            type_decoder_text(fs[i].type_ident),
        ),
        field_encoder_texts(fs)[i] == "(\""@ + fs[i].name@ + "\", "@ + grouped(
            type_encoder_text(fs[i].type_ident),
        ) + " obj."@ + field_name_of(fs[i].name@) + ")"@,
{
}

} // verus!
