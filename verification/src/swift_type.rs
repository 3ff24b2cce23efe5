//! The Swift type name a field renders as — a message, a success, a declared error, or a bound
//! argument's own type. A reference to a sibling type resolves to the Swift name registered for
//! it, exactly as it would inside an ordinary field.

use crate::field_def::{
    FieldDef, FieldDefType, element_levels, element_levels_of, is_sequence_wrapper, levels_of,
    optional, sequence_wrapper_name,
};
use crate::kotlin::{list_wrapped, wrap_levels};
use crate::names::{NameRegistry, last_named};
use vstd::prelude::*;

verus! {

/// `scalar` under the list `levels`, each level written `[item]`.
pub open spec fn swift_list_wrapped(scalar: Seq<char>, levels: Seq<bool>) -> Seq<char> {
    list_wrapped(scalar, levels, levels.len(), "["@, "]"@)
}

/// The Swift spelling of a type with no structure of its own to render.
pub open spec fn swift_scalar(ft: FieldDefType) -> Seq<char> {
    match ft {
        FieldDefType::Unknown => "any Sendable"@,
        FieldDefType::TypeParam(name) => name@,
        FieldDefType::Boolean | FieldDefType::BooleanLiteral(_) => "Bool"@,
        FieldDefType::Char | FieldDefType::String | FieldDefType::StringLiteral(_) => "String"@,
        FieldDefType::NumberLiteral(_) | FieldDefType::F64 => "Double"@,
        FieldDefType::F32 => "Float"@,
        FieldDefType::U8 => "UInt8"@,
        FieldDefType::U16 => "UInt16"@,
        FieldDefType::U32 => "UInt32"@,
        FieldDefType::U64 => "UInt64"@,
        FieldDefType::I8 => "Int8"@,
        FieldDefType::I16 => "Int16"@,
        FieldDefType::I32 => "Int32"@,
        FieldDefType::I64 => "Int64"@,
        FieldDefType::Usize | FieldDefType::Isize => "Int"@,
        FieldDefType::ObjectId => "ObjectId"@,
        FieldDefType::NaiveDate | FieldDefType::NaiveTime | FieldDefType::NaiveDateTime => "String"@,
        FieldDefType::DateTime => "Date"@,
        _ => Seq::empty(),
    }
}

/// The Swift type before the outer `?`: `ft` under the list `levels`, a sibling type by the name
/// `names` registers for it.
pub open spec fn sw_base(
    names: Seq<(Seq<char>, Seq<char>)>,
    ft: FieldDefType,
    levels: Seq<bool>,
) -> Seq<char>
    decreases ft, 0int,
{
    match ft {
        FieldDefType::SiblingType(name, generics) => {
            if generics.len() == 1 && sequence_wrapper_name(name@) {
                sw_base(names, generics[0].field_type, element_levels(generics[0], levels))
            } else {
                let class_name = match last_named(names, name@, names.len()) {
                    Option::Some(published) => published,
                    Option::None => name@,
                };
                if generics.len() == 0 {
                    swift_list_wrapped(class_name, levels)
                } else {
                    swift_list_wrapped(
                        class_name + "<"@ + sw_items(names, generics@, generics.len() as nat)
                            + ">"@,
                        levels,
                    )
                }
            }
        },
        FieldDefType::Tuple(elements) => swift_list_wrapped(
            "("@ + sw_items(names, elements@, elements.len() as nat) + ")"@,
            levels,
        ),
        FieldDefType::MapOf(key, value) => swift_list_wrapped(
            "["@ + sw_typename(names, *key) + ": "@ + sw_typename(names, *value) + "]"@,
            levels,
        ),
        _ => swift_list_wrapped(swift_scalar(ft), levels),
    }
}

/// The Swift type `f` renders as: its base, plus `?` when the field itself is nullable.
pub open spec fn sw_typename(names: Seq<(Seq<char>, Seq<char>)>, f: FieldDef) -> Seq<char>
    decreases f.field_type, 1int,
{
    let base = sw_base(names, f.field_type, levels_of(f));
    if optional(f) {
        base + "?"@
    } else {
        base
    }
}

/// The first `n` of `elements` rendered and joined by `, `.
pub open spec fn sw_items(names: Seq<(Seq<char>, Seq<char>)>, elements: Seq<FieldDef>, n: nat) -> Seq<
    char,
>
    decreases elements, n,
{
    if n == 0 || n > elements.len() {
        Seq::empty()
    } else if n == 1 {
        sw_typename(names, elements[0])
    } else {
        sw_items(names, elements, (n - 1) as nat) + ", "@ + sw_typename(names, elements[n - 1])
    }
}

fn swift_scalar_of(ft: &FieldDefType) -> (r: String)
    ensures
        r@ == swift_scalar(*ft),
{
    match ft {
        FieldDefType::Unknown => String::from_str("any Sendable"),
        FieldDefType::TypeParam(name) => name.clone(),
        FieldDefType::Boolean | FieldDefType::BooleanLiteral(_) => String::from_str("Bool"),
        FieldDefType::Char | FieldDefType::String | FieldDefType::StringLiteral(_) => String::from_str("String"),
        FieldDefType::NumberLiteral(_) | FieldDefType::F64 => String::from_str("Double"),
        FieldDefType::F32 => String::from_str("Float"),
        FieldDefType::U8 => String::from_str("UInt8"),
        FieldDefType::U16 => String::from_str("UInt16"),
        FieldDefType::U32 => String::from_str("UInt32"),
        FieldDefType::U64 => String::from_str("UInt64"),
        FieldDefType::I8 => String::from_str("Int8"),
        FieldDefType::I16 => String::from_str("Int16"),
        FieldDefType::I32 => String::from_str("Int32"),
        FieldDefType::I64 => String::from_str("Int64"),
        FieldDefType::Usize | FieldDefType::Isize => String::from_str("Int"),
        FieldDefType::ObjectId => String::from_str("ObjectId"),
        FieldDefType::NaiveDate | FieldDefType::NaiveTime | FieldDefType::NaiveDateTime => String::from_str("String"),
        FieldDefType::DateTime => String::from_str("Date"),
        _ => String::new(),
    }
}

/// [`sw_base`], computed.
fn swift_base_of(names: &NameRegistry, ft: &FieldDefType, levels: &Vec<bool>) -> (r: String)
    ensures
        r@ == sw_base(names@, *ft, levels@),
    decreases ft, 0int,
{
    match ft {
        FieldDefType::SiblingType(name, generics) => {
            if generics.len() == 1 && is_sequence_wrapper(name.as_str()) {
                let element = &generics[0];
                let combined = element_levels_of(element, levels);
                return swift_base_of(names, &element.field_type, &combined);
            }
            let class_name = match names.lookup(name.as_str()) {
                Option::Some(published) => published,
                Option::None => name.clone(),
            };
            if generics.len() == 0 {
                wrap_levels(class_name, levels, "[", "]")
            } else {
                let arguments = swift_items(names, generics);
                let mut applied = class_name;
                applied.append("<");
                applied.append(arguments.as_str());
                applied.append(">");
                wrap_levels(applied, levels, "[", "]")
            }
        },
        FieldDefType::Tuple(elements) => {
            let rendered = swift_items(names, elements);
            let mut t = String::from_str("(");
            t.append(rendered.as_str());
            t.append(")");
            wrap_levels(t, levels, "[", "]")
        },
        FieldDefType::MapOf(key, value) => {
            let k = swift_typename(names, key);
            let v = swift_typename(names, value);
            let mut m = String::from_str("[");
            m.append(k.as_str());
            m.append(": ");
            m.append(v.as_str());
            m.append("]");
            wrap_levels(m, levels, "[", "]")
        },
        _ => wrap_levels(swift_scalar_of(ft), levels, "[", "]"),
    }
}

/// The Swift type name `field` renders as, under the Swift names `names` registers: the scalar
/// or composite, one `[…]` per list level (an item marked `?` where its level is nullable), and a
/// trailing `?` when the field itself is nullable.
pub fn swift_typename(names: &NameRegistry, field: &FieldDef) -> (r: String)
    ensures
        r@ == sw_typename(names@, *field),
    decreases field.field_type, 1int,
{
    let levels = field.levels();
    let mut base = swift_base_of(names, &field.field_type, &levels);
    if field.is_optional() {
        base.append("?");
    }
    base
}

/// [`sw_items`] over every element.
fn swift_items(names: &NameRegistry, elements: &Vec<FieldDef>) -> (r: String)
    ensures
        r@ == sw_items(names@, elements@, elements.len() as nat),
    decreases elements, elements.len(),
{
    let mut r = String::new();
    let mut i: usize = 0;
    while i < elements.len()
        invariant
            i <= elements.len(),
            r@ == sw_items(names@, elements@, i as nat),
        decreases elements.len() - i,
    {
        let ty = swift_typename(names, &elements[i]);
        if i != 0 {
            r.append(", ");
        }
        r.append(ty.as_str());
        i = i + 1;
    }
    r
}

} // verus!
