//! A declared Rust item (struct, enum or type alias) as plain values: what the serde attributes on
//! it and its fields decide, and each field's type.

use crate::field_def::FieldDef;
use vstd::prelude::*;

verus! {

/// One field of a struct or of a struct-shaped or tuple-shaped variant.
#[derive(Debug)]
pub struct ItemField {
    /// The field's Rust name; empty for a tuple slot.
    pub rust_name: String,
    /// Its `#[serde(rename = "...")]`.
    pub rename: Option<String>,
    pub def: FieldDef,
    /// Dropped from the wire in both directions (`skip`, or both `skip_serializing` and
    /// `skip_deserializing`).
    pub absent_from_wire: bool,
    /// Its key may be left out when serializing (`skip_serializing_if`).
    pub omits_key: bool,
}

/// The shape of a struct's or variant's fields.
#[derive(Debug)]
pub enum ItemFields {
    Named(Vec<ItemField>),
    Unnamed(Vec<ItemField>),
    Unit,
}

#[derive(Debug)]
pub struct StructItem {
    pub ident: String,
    /// The type parameters in scope, in declaration order.
    pub generics: Vec<String>,
    /// `#[serde(rename_all = "...")]`.
    pub rename_all: Option<String>,
    /// `#[serde(transparent)]`. A single-slot tuple struct travels as its bare value whether or
    /// not it is set, so the Kotlin emitter publishes both alike.
    pub transparent: bool,
    pub fields: ItemFields,
}

#[derive(Debug)]
pub struct VariantItem {
    pub ident: String,
    /// `#[serde(rename = "...")]`.
    pub rename: Option<String>,
    pub fields: ItemFields,
}

/// The container attributes an enum's own dispatch reads.
#[derive(Debug)]
pub struct EnumTagAttrs {
    pub content: Option<String>,
    pub rename_all: Option<String>,
    pub rename_all_fields: Option<String>,
    pub tag: Option<String>,
    pub untagged: bool,
}

#[derive(Debug)]
pub struct EnumItem {
    pub ident: String,
    pub generics: Vec<String>,
    pub attrs: EnumTagAttrs,
    pub variants: Vec<VariantItem>,
}

#[derive(Debug)]
pub struct AliasItem {
    pub ident: String,
    pub generics: Vec<String>,
    pub target: FieldDef,
}

/// A declared item.
#[derive(Debug)]
pub enum Item {
    Struct(StructItem),
    Enum(EnumItem),
    Type(AliasItem),
    /// Anything else, which no emitter has anything to say about.
    Other,
}

/// The text of an optional string.
pub open spec fn opt_text(o: Option<String>) -> Option<Seq<char>> {
    match o {
        Option::Some(s) => Option::Some(s@),
        Option::None => Option::None,
    }
}

/// Whether a variant carries no payload: a unit variant.
pub open spec fn is_unit_variant(v: VariantItem) -> bool {
    v.fields is Unit
}

} // verus!
