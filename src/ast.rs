//! The humble schema: struct and enum definitions over structural types.

use vstd::prelude::*;

verus! {

/// A spec node: the top-level item of a humble file.
#[derive(Debug)]
pub struct Spec(pub Vec<SpecItem>);

impl Spec {
    /// The items of the spec, in declaration order.
    pub fn iter(&self) -> (r: &Vec<SpecItem>)
        ensures
            r@ == self.0@,
    {
        &self.0
    }
}

/// A spec item node.
#[derive(Debug)]
pub enum SpecItem {
    /// `struct` definition.
    StructDef(StructDef),
    /// `enum` definition.
    EnumDef(EnumDef),
    /// `service` definition: consumes the declared types across a boundary.
    ServiceDef(ServiceDef),
}

/// A service definition; only its presence matters to the generator.
#[derive(Debug)]
pub struct ServiceDef {
    /// Name of the service.
    pub name: String,
}

/// A struct definition.
#[derive(Debug)]
pub struct StructDef {
    /// Name of the struct.
    pub name: String,
    /// Documentation of the struct, if any.
    pub doc_comment: Option<String>,
    /// Fields of the struct.
    pub fields: StructFields,
}

/// Container of struct fields.
#[derive(Debug)]
pub struct StructFields(pub Vec<FieldNode>);

impl StructFields {
    /// All contained fields, in declaration order.
    pub fn iter(&self) -> (r: &Vec<FieldNode>)
        ensures
            r@ == self.0@,
    {
        &self.0
    }
}

/// Enum definition.
#[derive(Debug)]
pub struct EnumDef {
    /// Name of the `enum`.
    pub name: String,
    /// Documentation of the enum, if any.
    pub doc_comment: Option<String>,
    /// Container of variants.
    pub variants: Vec<VariantDef>,
}

/// Whether a variant carries no payload.
pub open spec fn is_simple_variant(v: VariantDef) -> bool {
    v.variant_type is Simple
}

/// Whether a variant carries a payload.
pub open spec fn is_complex_variant(v: VariantDef) -> bool {
    !(v.variant_type is Simple)
}

/// The payload-free variants of a list, in order.
pub open spec fn simple_of(vs: Seq<VariantDef>) -> Seq<VariantDef> {
    vs.filter(|v: VariantDef| is_simple_variant(v))
}

/// The variants with a payload of a list, in order.
pub open spec fn complex_of(vs: Seq<VariantDef>) -> Seq<VariantDef> {
    vs.filter(|v: VariantDef| is_complex_variant(v))
}

/// The variants that a list of references points to.
pub open spec fn derefs(vs: Seq<&VariantDef>) -> Seq<VariantDef> {
    vs.map_values(|v: &VariantDef| *v)
}

impl EnumDef {
    /// All complex variants, that is all that are not simple, in order.
    pub fn complex_variants(&self) -> (r: Vec<&VariantDef>)
        ensures
            derefs(r@) == complex_of(self.variants@),
    {
        let mut r: Vec<&VariantDef> = Vec::new();
        let mut i: usize = 0;
        while i < self.variants.len()
            invariant
                i <= self.variants@.len(),
                derefs(r@) == complex_of(self.variants@.subrange(0, i as int)),
            decreases self.variants@.len() - i,
        {
            let v = &self.variants[i];
            proof {
                let s = self.variants@.subrange(0, i as int + 1);
                assert(s.drop_last() =~= self.variants@.subrange(0, i as int));
                reveal(Seq::filter);
            }
            if !v.is_simple() {
                r.push(v);
            }
            assert(derefs(r@) =~= complex_of(self.variants@.subrange(0, i as int + 1)));
            i = i + 1;
        }
        assert(self.variants@.subrange(0, self.variants@.len() as int) =~= self.variants@);
        r
    }

    /// All simple (C-style) variants, in order.
    pub fn simple_variants(&self) -> (r: Vec<&VariantDef>)
        ensures
            derefs(r@) == simple_of(self.variants@),
    {
        let mut r: Vec<&VariantDef> = Vec::new();
        let mut i: usize = 0;
        while i < self.variants.len()
            invariant
                i <= self.variants@.len(),
                derefs(r@) == simple_of(self.variants@.subrange(0, i as int)),
            decreases self.variants@.len() - i,
        {
            let v = &self.variants[i];
            proof {
                let s = self.variants@.subrange(0, i as int + 1);
                assert(s.drop_last() =~= self.variants@.subrange(0, i as int));
                reveal(Seq::filter);
            }
            if v.is_simple() {
                r.push(v);
            }
            assert(derefs(r@) =~= simple_of(self.variants@.subrange(0, i as int + 1)));
            i = i + 1;
        }
        assert(self.variants@.subrange(0, self.variants@.len() as int) =~= self.variants@);
        r
    }
}

/// A variant definition.
#[derive(Debug)]
pub struct VariantDef {
    /// Name of the variant.
    pub name: String,
    /// Type of the variant.
    pub variant_type: VariantType,
}

/// An (enum-)variant type.
#[derive(Debug)]
pub enum VariantType {
    /// Simple C-style variant.
    Simple,
    /// Tuple variant.
    Tuple(TupleDef),
    /// Struct variant.
    Struct(StructFields),
    /// Newtype variant.
    Newtype(TypeIdent),
}

impl VariantDef {
    /// Returns whether or not a variant is simple.
    pub fn is_simple(&self) -> (r: bool)
        ensures
            r == is_simple_variant(*self),
    {
        if let VariantType::Simple = self.variant_type {
            true
        } else {
            false
        }
    }
}

/// A field node (field definition inside struct).
#[derive(Debug)]
pub struct FieldNode {
    /// Name of the field.
    pub name: String,
    /// Type of the field.
    pub type_ident: TypeIdent,
}

/// A type identifier.
#[derive(Debug)]
pub enum TypeIdent {
    /// Built-in (atomic) type.
    BuiltIn(AtomType),
    /// `list[T]`
    List(Box<TypeIdent>),
    /// `option[T]`
    Option(Box<TypeIdent>),
    /// `map[t][u]`
    Dict(Box<TypeIdent>, Box<TypeIdent>),
    /// Tuple type.
    Tuple(TupleDef),
    /// Type defined in humble file.
    UserDefined(String),
}

/// An atomic type.
#[derive(Debug)]
pub enum AtomType {
    /// The empty (unit) type.
    Empty,
    /// String.
    Str,
    /// Signed 32-bit integer.
    I32,
    /// Unsigned 32-bit integer.
    U32,
    /// Unsigned 8-bit integer.
    U8,
    /// 64-bit IEEE floating point number.
    F64,
    /// Boolean value.
    Bool,
    /// Timestamp with timezone.
    DateTime,
    /// Calendar date.
    Date,
}

/// A tuple definition.
#[derive(Debug)]
pub struct TupleDef(pub Vec<TypeIdent>);

impl TupleDef {
    /// Get a reference to the tuple components.
    pub fn components(&self) -> (r: &Vec<TypeIdent>)
        ensures
            r@ == self.0@,
    {
        &self.0
    }
}

} // verus!
