//! Names derived from declared identifiers, each in Elm's camel case.

use crate::text::{camel_case, camel_of};
use vstd::prelude::*;

verus! {

/// The text handed to the casing for the decoder of `id`.
pub open spec fn decoder_stem(id: Seq<char>) -> Seq<char> {
    id + "Decoder"@
}

/// The text handed to the casing for the encoder of `id`.
pub open spec fn encoder_stem(id: Seq<char>) -> Seq<char> {
    "encode"@ + id
}

/// The text handed to the casing for the string parser of enum `id`.
pub open spec fn parser_stem(id: Seq<char>) -> Seq<char> {
    "parseEnum"@ + id + "FromString"@
}

/// Name of the decoder function of type `id`.
pub open spec fn decoder_name_of(id: Seq<char>) -> Seq<char> {
    camel_of(decoder_stem(id))
}

/// Name of the encoder function of type `id`.
pub open spec fn encoder_name_of(id: Seq<char>) -> Seq<char> {
    camel_of(encoder_stem(id))
}

/// Name of the function that maps a string to a simple variant of enum `id`.
pub open spec fn parser_name_of(id: Seq<char>) -> Seq<char> {
    camel_of(parser_stem(id))
}

/// Name of the record field or local for identifier `id`.
pub open spec fn field_name_of(id: Seq<char>) -> Seq<char> {
    camel_of(id)
}

/// Construct decoder function name.
pub fn decoder_name(ident: &str) -> (r: String)
    ensures
        r@ == decoder_name_of(ident@),
{
    let mut s = String::from_str(ident);
    s.append("Decoder");
    camel_case(s.as_str())
}

/// Construct function name for an enum decoder from strings.
pub fn enum_string_decoder_name(ident: &str) -> (r: String)
    ensures
        r@ == parser_name_of(ident@),
{
    let mut s = String::from_str("parseEnum");
    s.append(ident);
    s.append("FromString");
    camel_case(s.as_str())
}

/// Construct name for a field.
pub fn field_name(ident: &str) -> (r: String)
    ensures
        r@ == field_name_of(ident@),
{
    camel_case(ident)
}

/// Construct name of encoder function for specific `ident`.
pub fn encoder_name(ident: &str) -> (r: String)
    ensures
        r@ == encoder_name_of(ident@),
{
    let mut s = String::from_str("encode");
    s.append(ident);
    camel_case(s.as_str())
}

} // verus!
