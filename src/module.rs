//! Assembly of one Elm module from a whole spec.

use crate::ast::{simple_of, derefs, EnumDef, ServiceDef, Spec, SpecItem, VariantDef};
use crate::decl::{defs_text, render_def};
use crate::decode::render_type_decoders;
use crate::encode::render_type_encoders;
use crate::keys::{check_spec_keys, spec_keys_ok};
use crate::names::{enum_string_decoder_name, parser_name_of};
use crate::text::{join_parts, joined, views};
use vstd::prelude::*;

verus! {

/// Why a spec cannot be turned into a module.
#[derive(Debug, Clone, Copy, PartialEq, Eq, Structural)]
pub enum RenderError {
    /// A map is keyed by something other than a string, which JSON objects
    /// cannot carry.
    MapKeyNotString,
    /// The spec declares a service, and client code generation is not
    /// available.
    ServiceClientsUnsupported,
}

/// The fixed head of every generated module: its name and imports.
pub const MODULE_HEADER: &'static str = "module Protocol exposing (..)\n\nimport Date\nimport Dict exposing (Dict)\nimport Time\n";

/// The imports that the decoders and encoders need.
pub const SERVICE_PREAMBLE: &'static str = "import Iso8601\nimport Json.Decode as D\nimport Json.Decode.Pipeline exposing (required)\nimport Json.Encode as E\n";

/// Whether a spec declares at least one service.
pub open spec fn has_services(items: Seq<SpecItem>) -> bool {
    exists|i: int| 0 <= i < items.len() && (#[trigger] items[i]) is ServiceDef
}

/// The module of a spec without services: the header, then the declarations.
pub open spec fn module_text(spec: Spec) -> Seq<char> {
    MODULE_HEADER@ + "\n"@ + defs_text(spec)
}

/// What rendering a spec gives: the module, or why there is none.
pub open spec fn rendered(spec: Spec) -> Result<Seq<char>, RenderError> {
    if !spec_keys_ok(spec) {
        Err(RenderError::MapKeyNotString)
    } else if has_services(spec.0@) {
        Err(RenderError::ServiceClientsUnsupported)
    } else {
        Ok(module_text(spec))
    }
}

/// The text of a rendering result.
pub open spec fn result_view(r: Result<String, RenderError>) -> Result<Seq<char>, RenderError> {
    match r {
        Ok(s) => Ok(s@),
        Err(e) => Err(e),
    }
}

/// The function that maps a string to the simple variant of that name.
pub open spec fn enum_helpers_text(edef: EnumDef) -> Seq<char> {
    parser_name_of(edef.name@) + " : String -> Maybe "@ + edef.name@ + "\n"@ + parser_name_of(
        edef.name@,
    ) + " s = case s of \n"@ + joined(
        simple_of(edef.variants@).map_values(|v: VariantDef| simple_case_text(v)),
        "\n"@,
    ) + "\n"@ + "  "@ + "_ -> Nothing\n"@
}

/// The case that maps the name of a simple variant to that variant.
pub open spec fn simple_case_text(v: VariantDef) -> Seq<char> {
    "  \""@ + v.name@ + "\" -> Just "@ + v.name@
}

/// The string parsers of the enums of a spec, in order.
pub open spec fn helper_texts(items: Seq<SpecItem>) -> Seq<Seq<char>>
    decreases items.len(),
{
    if items.len() == 0 {
        Seq::empty()
    } else {
        let prev = helper_texts(items.drop_last());
        match items.last() {
            SpecItem::EnumDef(edef) => prev.push(enum_helpers_text(edef)),
            _ => prev,
        }
    }
}

/// Whether a spec item is a service.
pub fn is_service(item: &SpecItem) -> (r: bool)
    ensures
        r == (*item is ServiceDef),
{
    match item {
        SpecItem::ServiceDef(_) => true,
        _ => false,
    }
}

/// Whether a spec declares at least one service.
pub fn spec_has_services(spec: &Spec) -> (r: bool)
    ensures
        r == has_services(spec.0@),
{
    let items = spec.iter();
    let mut i: usize = 0;
    while i < items.len()
        invariant
            items@ == spec.0@,
            i <= items@.len(),
            forall|j: int| 0 <= j < i ==> !((#[trigger] items@[j]) is ServiceDef),
        decreases items@.len() - i,
    {
        if is_service(&items[i]) {
            return true;
        }
        i = i + 1;
    }
    false
}

/// Render helper functions for enum decoders: a parser from the name of each
/// simple variant to the variant.
pub fn render_enum_helpers(edef: &EnumDef) -> (r: String)
    ensures
        r@ == enum_helpers_text(*edef),
{
    let simple = edef.simple_variants();
    let mut cases: Vec<String> = Vec::new();
    let mut i: usize = 0;
    while i < simple.len()
        invariant
            i <= simple@.len(),
            views(cases@) =~= derefs(simple@).subrange(0, i as int).map_values(
                |v: VariantDef| simple_case_text(v),
            ),
        decreases simple@.len() - i,
    {
        let variant: &VariantDef = simple[i];
        let mut c = String::from_str("  \"");
        c.append(variant.name.as_str());
        c.append("\" -> Just ");
        c.append(variant.name.as_str());
        let ghost prev = cases@;
        cases.push(c);
        assert(views(cases@) =~= views(prev).push(c@));
        assert(views(cases@) =~= derefs(simple@).subrange(0, i as int + 1).map_values(
            |v: VariantDef| simple_case_text(v),
        ));
        i = i + 1;
    }
    assert(derefs(simple@).subrange(0, simple@.len() as int) =~= derefs(simple@));
    let fname = enum_string_decoder_name(edef.name.as_str());
    let mut r = fname.clone();
    r.append(" : String -> Maybe ");
    r.append(edef.name.as_str());
    r.append("\n");
    r.append(fname.as_str());
    r.append(" s = case s of \n");
    let j = join_parts(&cases, "\n");
    r.append(j.as_str());
    r.append("\n");
    r.append("  ");
    r.append("_ -> Nothing\n");
    r
}

/// Render the string parsers of all enums of a spec.
pub fn render_rest_api_client_helpers(spec: &Spec) -> (r: String)
    ensures
        r@ == joined(helper_texts(spec.0@), ""@),
{
    let items = spec.iter();
    let mut parts: Vec<String> = Vec::new();
    let mut i: usize = 0;
    while i < items.len()
        invariant
            i <= items@.len(),
            items@ == spec.0@,
            views(parts@) == helper_texts(items@.subrange(0, i as int)),
        decreases items@.len() - i,
    {
        let ghost prev = parts@;
        proof {
            let s = items@.subrange(0, i as int + 1);
            assert(s.drop_last() =~= items@.subrange(0, i as int));
        }
        match &items[i] {
            SpecItem::EnumDef(edef) => {
                let p = render_enum_helpers(edef);
                parts.push(p);
                assert(views(parts@) =~= views(prev).push(p@));
            },
            _ => {},
        }
        i = i + 1;
    }
    assert(items@.subrange(0, items@.len() as int) =~= items@);
    join_parts(&parts, "")
}

/// Render the client of a service: not available, so it always fails.
pub fn render_rest_api_client(service: &ServiceDef) -> (r: Result<String, RenderError>)
    ensures
        r == Err::<String, RenderError>(RenderError::ServiceClientsUnsupported),
{
    Err(RenderError::ServiceClientsUnsupported)
}

/// Render the clients of all services of a spec: nothing where there are
/// none, a failure where there is one.
pub fn render_rest_api_clients(spec: &Spec) -> (r: Result<String, RenderError>)
    ensures
        has_services(spec.0@) ==> r == Err::<String, RenderError>(
            RenderError::ServiceClientsUnsupported,
        ),
        !has_services(spec.0@) ==> r is Ok && r->Ok_0@ == Seq::<char>::empty(),
{
    let items = spec.iter();
    let mut i: usize = 0;
    while i < items.len()
        invariant
            items@ == spec.0@,
            i <= items@.len(),
            forall|j: int| 0 <= j < i ==> !((#[trigger] items@[j]) is ServiceDef),
        decreases items@.len() - i,
    {
        match &items[i] {
            SpecItem::ServiceDef(service) => {
                return render_rest_api_client(service);
            },
            _ => {},
        }
        i = i + 1;
    }
    Ok(String::new())
}

/// Render all code for `spec`.
///
/// A spec with a map keyed by anything but strings fails as a whole; so does
/// one with a service, whose clients cannot be generated.
pub fn render(spec: &Spec) -> (r: Result<String, RenderError>)
    ensures
        result_view(r) == rendered(*spec),
{
    if !check_spec_keys(spec) {
        return Err(RenderError::MapKeyNotString);
    }
    let render_client_side_services = spec_has_services(spec);
    let defs = render_def(spec);
    let mut out = String::from_str(MODULE_HEADER);
    out.append("\n");
    if render_client_side_services {
        let decoders = render_type_decoders(spec);
        let encoders = render_type_encoders(spec);
        let clients = match render_rest_api_clients(spec) {
            Ok(c) => c,
            Err(e) => {
                return Err(e);
            },
        };
        out.append(SERVICE_PREAMBLE);
        out.append("\n");
        out.append(defs.as_str());
        out.append("\n\n");
        out.append(decoders.as_str());
        out.append("\n\n");
        out.append(encoders.as_str());
        out.append("\n\n");
        out.append(clients.as_str());
        Ok(out)
    } else {
        out.append(defs.as_str());
        Ok(out)
    }
}

/// The Elm code generator.
#[derive(Default)]
pub struct Generator {}

impl Generator {
    /// The module generated for `spec`, as `render` gives it.
    pub fn generate(&self, spec: &Spec) -> (r: Result<String, RenderError>)
        ensures
            result_view(r) == rendered(*spec),
    {
        render(spec)
    }
}

} // verus!
