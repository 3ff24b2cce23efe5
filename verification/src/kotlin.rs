//! Kotlin type names and declarations with `kotlinx.serialization` annotations, one per declared
//! item. A reference to a sibling item resolves through the names registered so far; a tuple
//! earns a numbered wrapper class and the `KSerializer` that writes it as a JSON array, queued
//! until the next item's text is taken.

use crate::field_def::{
    FieldDef, FieldDefType, element_levels, element_levels_of, is_sequence_wrapper, levels_of,
    optional, sequence_wrapper_name,
};
use crate::item::{AliasItem, EnumItem, Item, ItemField, ItemFields, StructItem, VariantItem, opt_text};
use crate::names::{NameRegistry, last_named};
use crate::rename_rule::{
    RenameRule, ascii_led, camel_field, field_renamed, field_rule_applies, is_ascii_led, pascal_field, resolve_rename_rule,
    rule_named, snake_variant, variant_renamed, variant_rule_applies,
};
use crate::kotlin_text::{
    adjacent_content_arm, adjacent_content_arm_text, adjacent_deserialize_body, adjacent_deserialize_body_text, adjacent_unit_arm, adjacent_unit_arm_text, bare_value_subclass, bare_value_subclass_text, deserialize_arm, deserialize_arm_text, dispatched_serializer, dispatched_serializer_text, external_content_arm, external_content_arm_text, external_deserialize_body, external_deserialize_body_text, external_unit_arm, external_unit_arm_text, internal_base, internal_base_text, named_content, named_content_text, named_decode, named_decode_text, named_subclass, named_subclass_text, plain_enum, plain_enum_text, recover, recover_text, tuple_struct_declaration, tuple_struct_text, tuple_wrapper_declaration, tuple_wrapper_text, unit_subclass, unit_subclass_text, untagged_arm, untagged_arm_text, untagged_serializer, untagged_serializer_text, value_content, value_content_text, value_decode, value_decode_text, value_subclass, value_subclass_text,
};
use crate::text::{decimal, decimal_text, join, join_texts, same_text};
use vstd::prelude::*;

verus! {

/// What the Kotlin emitter carries from one item to the next: the Kotlin name each Rust ident
/// publishes under, the tuple wrapper declarations queued for the next item's text, and the last
/// tuple wrapper number handed out.
pub struct KotlinState {
    pub names: NameRegistry,
    pub tuple_aux: Vec<String>,
    pub tuple_counter: u32,
}

/// The plain contents of a [`KotlinState`].
pub struct KotlinView {
    pub names: Seq<(Seq<char>, Seq<char>)>,
    pub aux: Seq<Seq<char>>,
    pub counter: u32,
}

impl View for KotlinState {
    type V = KotlinView;

    open spec fn view(&self) -> KotlinView {
        KotlinView { names: self.names@, aux: self.tuple_aux.deep_view(), counter: self.tuple_counter }
    }
}

impl KotlinState {
    pub fn new() -> (r: KotlinState)
        ensures
            r@.names.len() == 0,
            r@.aux.len() == 0,
            r@.counter == 0,
    {
        KotlinState { names: NameRegistry::new(), tuple_aux: Vec::new(), tuple_counter: 0 }
    }
}

/// The Kotlin name registered for `rust_ident`, if any.
pub open spec fn kotlin_name(st: KotlinView, rust_ident: Seq<char>) -> Option<Seq<char>> {
    last_named(st.names, rust_ident, st.names.len())
}

/// The number the next tuple wrapper takes: one past the last, wrapping at `u32::MAX`.
pub open spec fn next_tuple_number(counter: u32) -> u32 {
    if counter == u32::MAX {
        0
    } else {
        (counter + 1) as u32
    }
}

/// How one slot of a list of fields renders.
#[derive(Clone, Copy, Debug, PartialEq, Eq, Structural)]
pub enum ListForm {
    /// A type argument: the bare type name.
    Args,
    /// A constructor parameter `val slot{i}: T`.
    Params,
    /// The encoder call writing slot `i` into a JSON array.
    Encode,
    /// The decoder call reading slot `i` back out of a JSON array.
    Decode,
}

/// A reference to the `KSerializer` of the Kotlin type `ty`.
pub open spec fn serializer_text(ty: Seq<char>) -> Seq<char> {
    "serializer<"@ + ty + ">()"@
}

pub open spec fn form_piece(form: ListForm, i: nat, ty: Seq<char>) -> Seq<char> {
    match form {
        ListForm::Args => ty,
        ListForm::Params => "val slot"@ + decimal(i) + ": "@ + ty,
        ListForm::Encode => "add(output.json.encodeToJsonElement("@ + serializer_text(ty)
            + ", value.slot"@ + decimal(i) + "))"@,
        ListForm::Decode => "input.json.decodeFromJsonElement("@ + serializer_text(ty) + ", array["@
            + decimal(i) + "])"@,
    }
}

pub open spec fn form_separator(form: ListForm) -> Seq<char> {
    match form {
        ListForm::Encode => "; "@,
        _ => ", "@,
    }
}

/// `scalar` under list levels `0..k` of `levels`, each written `open item close`, its item
/// marked `?` where the level says it is nullable.
pub open spec fn list_wrapped(
    scalar: Seq<char>,
    levels: Seq<bool>,
    k: nat,
    open: Seq<char>,
    close: Seq<char>,
) -> Seq<char>
    decreases k,
{
    if k == 0 {
        scalar
    } else {
        let wrapped = list_wrapped(scalar, levels, (k - 1) as nat, open, close);
        let item = if levels[k - 1] {
            wrapped + "?"@
        } else {
            wrapped
        };
        open + item + close
    }
}

pub open spec fn kotlin_list_wrapped(scalar: Seq<char>, levels: Seq<bool>) -> Seq<char> {
    list_wrapped(scalar, levels, levels.len(), "List<"@, ">"@)
}

/// The Kotlin spelling of a type with no structure of its own to render.
pub open spec fn kotlin_scalar(ft: FieldDefType, as_number: bool) -> Seq<char> {
    match ft {
        FieldDefType::Unknown => "JsonElement"@,
        FieldDefType::TypeParam(name) => name@,
        FieldDefType::Boolean | FieldDefType::BooleanLiteral(_) => "Boolean"@,
        FieldDefType::Char | FieldDefType::String | FieldDefType::StringLiteral(_) => "String"@,
        FieldDefType::NumberLiteral(_) | FieldDefType::F64 => "Double"@,
        FieldDefType::F32 => "Float"@,
        FieldDefType::U8 => "UByte"@,
        FieldDefType::U16 => "UShort"@,
        FieldDefType::U32 => "UInt"@,
        FieldDefType::U64 | FieldDefType::Usize => "Long"@,
        FieldDefType::I8 => "Byte"@,
        FieldDefType::I16 => "Short"@,
        FieldDefType::I32 => "Int"@,
        FieldDefType::I64 | FieldDefType::Isize => "Long"@,
        FieldDefType::ObjectId => "ObjectId"@,
        FieldDefType::NaiveDate | FieldDefType::NaiveTime | FieldDefType::NaiveDateTime => "String"@,
        FieldDefType::DateTime => if as_number {
            "Long"@
        } else {
            "String"@
        },
        _ => Seq::empty(),
    }
}

/// The Kotlin type before the outer `?`: `ft` under the list `levels`, and what rendering it did
/// to the state (a tuple queues its wrapper).
pub open spec fn kt_base(st: KotlinView, ft: FieldDefType, levels: Seq<bool>, as_number: bool) -> (
    Seq<char>,
    KotlinView,
)
    decreases ft, 0int,
{
    match ft {
        FieldDefType::SiblingType(name, generics) => {
            if generics.len() == 1 && sequence_wrapper_name(name@) {
                kt_base(st, generics[0].field_type, element_levels(generics[0], levels), as_number)
            } else {
                let class_name = match kotlin_name(st, name@) {
                    Option::Some(published) => published,
                    Option::None => name@,
                };
                if generics.len() == 0 {
                    (kotlin_list_wrapped(class_name, levels), st)
                } else {
                    let (args, after) = kt_items(st, generics@, generics.len() as nat, ListForm::Args);
                    (kotlin_list_wrapped(class_name + "<"@ + args + ">"@, levels), after)
                }
            }
        },
        FieldDefType::Tuple(elements) => {
            let (wrapper, after) = kt_tuple(st, elements@);
            (kotlin_list_wrapped(wrapper, levels), after)
        },
        FieldDefType::MapOf(key, value) => {
            let (k, st1) = kt_typename(st, *key);
            let (v, st2) = kt_typename(st1, *value);
            (kotlin_list_wrapped("Map<"@ + k + ", "@ + v + ">"@, levels), st2)
        },
        _ => (kotlin_list_wrapped(kotlin_scalar(ft, as_number), levels), st),
    }
}

/// The Kotlin type `f` renders as: its base, plus `?` when the field itself is nullable.
pub open spec fn kt_typename(st: KotlinView, f: FieldDef) -> (Seq<char>, KotlinView)
    decreases f.field_type, 1int,
{
    let (base, after) = kt_base(st, f.field_type, levels_of(f), f.as_number);
    (
        if optional(f) {
            base + "?"@
        } else {
            base
        },
        after,
    )
}

/// The first `n` of `elements` rendered in `form` and joined by its separator, left to right.
pub open spec fn kt_items(st: KotlinView, elements: Seq<FieldDef>, n: nat, form: ListForm) -> (
    Seq<char>,
    KotlinView,
)
    decreases elements, n,
{
    if n == 0 || n > elements.len() {
        (Seq::empty(), st)
    } else {
        let (before, st1) = kt_items(st, elements, (n - 1) as nat, form);
        let (ty, st2) = kt_typename(st1, elements[n - 1]);
        let piece = form_piece(form, (n - 1) as nat, ty);
        (
            if n == 1 {
                piece
            } else {
                before + form_separator(form) + piece
            },
            st2,
        )
    }
}

/// A tuple's wrapper class name `KotlinTuple{n}`, `n` the next number; its declaration is queued.
pub open spec fn kt_tuple(st: KotlinView, elements: Seq<FieldDef>) -> (Seq<char>, KotlinView)
    decreases elements, elements.len() + 1,
{
    let number = next_tuple_number(st.counter);
    let st1 = KotlinView { names: st.names, aux: st.aux, counter: number };
    let wrapper = "KotlinTuple"@ + decimal(number as nat);
    let serializer = wrapper + "Serializer"@;
    let (params, st2) = kt_items(st1, elements, elements.len() as nat, ListForm::Params);
    let (encode, st3) = kt_items(st2, elements, elements.len() as nat, ListForm::Encode);
    let (decode, st4) = kt_items(st3, elements, elements.len() as nat, ListForm::Decode);
    let declaration = tuple_wrapper_text(serializer, wrapper, params, encode, decode);
    (wrapper, KotlinView { names: st4.names, aux: st4.aux.push(declaration), counter: st4.counter })
}

fn serializer_expr_of(ty: &str) -> (r: String)
    ensures
        r@ == serializer_text(ty@),
{
    let mut r = String::from_str("serializer<");
    r.append(ty);
    r.append(">()");
    r
}

fn form_piece_of(form: ListForm, i: usize, ty: &str) -> (r: String)
    ensures
        r@ == form_piece(form, i as nat, ty@),
{
    match form {
        ListForm::Args => String::from_str(ty),
        ListForm::Params => {
            let mut r = String::from_str("val slot");
            r.append(decimal_text(i as u64).as_str());
            r.append(": ");
            r.append(ty);
            r
        },
        ListForm::Encode => {
            let mut r = String::from_str("add(output.json.encodeToJsonElement(");
            r.append(serializer_expr_of(ty).as_str());
            r.append(", value.slot");
            r.append(decimal_text(i as u64).as_str());
            r.append("))");
            r
        },
        ListForm::Decode => {
            let mut r = String::from_str("input.json.decodeFromJsonElement(");
            r.append(serializer_expr_of(ty).as_str());
            r.append(", array[");
            r.append(decimal_text(i as u64).as_str());
            r.append("])");
            r
        },
    }
}

fn form_separator_of(form: ListForm) -> (r: &'static str)
    ensures
        r@ == form_separator(form),
{
    match form {
        ListForm::Encode => "; ",
        _ => ", ",
    }
}

/// `scalar` under the list `levels`, written with `open`/`close` around each level's item.
pub fn wrap_levels(scalar: String, levels: &Vec<bool>, open: &str, close: &str) -> (r: String)
    ensures
        r@ == list_wrapped(scalar@, levels@, levels.len() as nat, open@, close@),
{
    let ghost base = scalar@;
    let mut wrapped = scalar;
    let mut k: usize = 0;
    while k < levels.len()
        invariant
            k <= levels.len(),
            wrapped@ == list_wrapped(base, levels@, k as nat, open@, close@),
        decreases levels.len() - k,
    {
        let mut next = String::from_str(open);
        next.append(wrapped.as_str());
        if levels[k] {
            next.append("?");
        }
        next.append(close);
        wrapped = next;
        k = k + 1;
    }
    wrapped
}

fn kotlin_scalar_of(ft: &FieldDefType, as_number: bool) -> (r: String)
    ensures
        r@ == kotlin_scalar(*ft, as_number),
{
    match ft {
        FieldDefType::Unknown => String::from_str("JsonElement"),
        FieldDefType::TypeParam(name) => name.clone(),
        FieldDefType::Boolean | FieldDefType::BooleanLiteral(_) => String::from_str("Boolean"),
        FieldDefType::Char | FieldDefType::String | FieldDefType::StringLiteral(_) => String::from_str("String"),
        FieldDefType::NumberLiteral(_) | FieldDefType::F64 => String::from_str("Double"),
        FieldDefType::F32 => String::from_str("Float"),
        FieldDefType::U8 => String::from_str("UByte"),
        FieldDefType::U16 => String::from_str("UShort"),
        FieldDefType::U32 => String::from_str("UInt"),
        FieldDefType::U64 | FieldDefType::Usize => String::from_str("Long"),
        FieldDefType::I8 => String::from_str("Byte"),
        FieldDefType::I16 => String::from_str("Short"),
        FieldDefType::I32 => String::from_str("Int"),
        FieldDefType::I64 | FieldDefType::Isize => String::from_str("Long"),
        FieldDefType::ObjectId => String::from_str("ObjectId"),
        FieldDefType::NaiveDate | FieldDefType::NaiveTime | FieldDefType::NaiveDateTime => String::from_str("String"),
        FieldDefType::DateTime => if as_number {
            String::from_str("Long")
        } else {
            String::from_str("String")
        },
        _ => String::new(),
    }
}

/// [`kt_base`], computed: `ft` under the list `levels`.
fn kotlin_base_of(st: &mut KotlinState, ft: &FieldDefType, levels: &Vec<bool>, as_number: bool) -> (r: String)
    ensures
        (r@, final(st)@) == kt_base(old(st)@, *ft, levels@, as_number),
    decreases ft, 0int,
{
    match ft {
        FieldDefType::SiblingType(name, generics) => {
            if generics.len() == 1 && is_sequence_wrapper(name.as_str()) {
                let element = &generics[0];
                let combined = element_levels_of(element, levels);
                return kotlin_base_of(st, &element.field_type, &combined, as_number);
            }
            let class_name = match st.names.lookup(name.as_str()) {
                Option::Some(published) => published,
                Option::None => name.clone(),
            };
            if generics.len() == 0 {
                wrap_levels(class_name, levels, "List<", ">")
            } else {
                let args = kotlin_items(st, generics, ListForm::Args);
                let mut applied = class_name;
                applied.append("<");
                applied.append(args.as_str());
                applied.append(">");
                wrap_levels(applied, levels, "List<", ">")
            }
        },
        FieldDefType::Tuple(elements) => {
            let wrapper = tuple_wrapper_typename(st, elements);
            wrap_levels(wrapper, levels, "List<", ">")
        },
        FieldDefType::MapOf(key, value) => {
            let k = kotlin_typename(st, key);
            let v = kotlin_typename(st, value);
            let mut m = String::from_str("Map<");
            m.append(k.as_str());
            m.append(", ");
            m.append(v.as_str());
            m.append(">");
            wrap_levels(m, levels, "List<", ">")
        },
        _ => wrap_levels(kotlin_scalar_of(ft, as_number), levels, "List<", ">"),
    }
}

/// The Kotlin type before the outer `?` a nullable field carries: the scalar, then one `List<…>`
/// per array level, an inner level written `?` where that level is nullable.
pub fn kotlin_base(st: &mut KotlinState, field: &FieldDef) -> (r: String)
    ensures
        (r@, final(st)@) == kt_base(old(st)@, field.field_type, levels_of(*field), field.as_number),
{
    let levels = field.levels();
    kotlin_base_of(st, &field.field_type, &levels, field.as_number)
}

/// The Kotlin type `field` renders as: [`kotlin_base`] plus the `?` of a nullable field.
pub fn kotlin_typename(st: &mut KotlinState, field: &FieldDef) -> (r: String)
    ensures
        (r@, final(st)@) == kt_typename(old(st)@, *field),
    decreases field.field_type, 1int,
{
    let levels = field.levels();
    let mut base = kotlin_base_of(st, &field.field_type, &levels, field.as_number);
    if field.is_optional() {
        base.append("?");
    }
    base
}

/// A reference to `field`'s own `KSerializer`, built from the type text [`kotlin_typename`]
/// renders.
pub fn kotlin_serializer_expr(st: &mut KotlinState, field: &FieldDef) -> (r: String)
    ensures
        ({
            let (ty, after) = kt_typename(old(st)@, *field);
            r@ == serializer_text(ty) && final(st)@ == after
        }),
{
    let ty = kotlin_typename(st, field);
    serializer_expr_of(ty.as_str())
}

/// [`kt_items`], computed over every element.
fn kotlin_items(st: &mut KotlinState, elements: &Vec<FieldDef>, form: ListForm) -> (r: String)
    ensures
        (r@, final(st)@) == kt_items(old(st)@, elements@, elements.len() as nat, form),
    decreases elements, elements.len(),
{
    let mut r = String::new();
    let mut i: usize = 0;
    while i < elements.len()
        invariant
            i <= elements.len(),
            (r@, st@) == kt_items(old(st)@, elements@, i as nat, form),
        decreases elements.len() - i,
    {
        let ty = kotlin_typename(st, &elements[i]);
        let piece = form_piece_of(form, i, ty.as_str());
        if i == 0 {
            r = piece;
        } else {
            r.append(form_separator_of(form));
            r.append(piece.as_str());
        }
        i = i + 1;
    }
    r
}

/// The Kotlin type name for a tuple: queues a wrapper `data class` plus the `KSerializer` that
/// reads and writes it as a JSON array, and answers the wrapper's own name, numbered one past the
/// last so no two wrappers in one output collide.
pub fn tuple_wrapper_typename(st: &mut KotlinState, elements: &Vec<FieldDef>) -> (r: String)
    ensures
        (r@, final(st)@) == kt_tuple(old(st)@, elements@),
    decreases elements, elements.len() + 1,
{
    let number: u32 = if st.tuple_counter == u32::MAX {
        0
    } else {
        st.tuple_counter + 1
    };
    st.tuple_counter = number;
    let mut wrapper = String::from_str("KotlinTuple");
    wrapper.append(decimal_text(number as u64).as_str());
    let mut serializer = wrapper.clone();
    serializer.append("Serializer");
    let params = kotlin_items(st, elements, ListForm::Params);
    let encode = kotlin_items(st, elements, ListForm::Encode);
    let decode = kotlin_items(st, elements, ListForm::Decode);
    let declaration = tuple_wrapper_declaration(
        serializer.as_str(),
        wrapper.as_str(),
        params.as_str(),
        encode.as_str(),
        decode.as_str(),
    );
    let ghost before = st.tuple_aux.deep_view();
    st.tuple_aux.push(declaration);
    assert(st.tuple_aux.deep_view() =~= before.push(declaration@));
    wrapper
}


// ---------------------------------------------------------------------------------------------
// Widths Kotlin cannot carry.
// ---------------------------------------------------------------------------------------------

/// The `u64`/`usize` width `f` is, or reaches at any depth through a sibling type's arguments, a
/// map's key and value, or a tuple's elements.
pub open spec fn refused_width(f: FieldDef) -> Option<Seq<char>>
    decreases f, 0int,
{
    match f.field_type {
        FieldDefType::U64 => Option::Some("u64"@),
        FieldDefType::Usize => Option::Some("usize"@),
        FieldDefType::SiblingType(_, generics) => first_refused(generics@, 0),
        FieldDefType::MapOf(key, value) => match refused_width(*key) {
            Option::Some(w) => Option::Some(w),
            Option::None => refused_width(*value),
        },
        FieldDefType::Tuple(elements) => first_refused(elements@, 0),
        _ => Option::None,
    }
}

/// The first refused width among `elements[i..]`.
pub open spec fn first_refused(elements: Seq<FieldDef>, i: nat) -> Option<Seq<char>>
    decreases elements, elements.len() - i,
{
    if i >= elements.len() {
        Option::None
    } else {
        match refused_width(elements[i as int]) {
            Option::Some(w) => Option::Some(w),
            Option::None => first_refused(elements, i + 1),
        }
    }
}

/// The `u64`/`usize` width `field` is, or at any depth reaches — a sibling type's own generic
/// arguments, a map's key and value, a tuple's elements — or `None` for a field with no such
/// width anywhere. Kotlin's widest unsigned width is `UInt`; `u64` and `usize` have no
/// counterpart at all.
pub fn kotlin_refused_width(field: &FieldDef) -> (r: Option<&'static str>)
    ensures
        match r {
            Option::Some(w) => refused_width(*field) == Option::Some(w@),
            Option::None => refused_width(*field) is None,
        },
    decreases field, 0int,
{
    match &field.field_type {
        FieldDefType::U64 => Option::Some("u64"),
        FieldDefType::Usize => Option::Some("usize"),
        FieldDefType::SiblingType(_, generics) => first_refused_of(generics),
        FieldDefType::MapOf(key, value) => match kotlin_refused_width(key) {
            Option::Some(w) => Option::Some(w),
            Option::None => kotlin_refused_width(value),
        },
        FieldDefType::Tuple(elements) => first_refused_of(elements),
        _ => Option::None,
    }
}

fn first_refused_of(elements: &Vec<FieldDef>) -> (r: Option<&'static str>)
    ensures
        match r {
            Option::Some(w) => first_refused(elements@, 0) == Option::Some(w@),
            Option::None => first_refused(elements@, 0) is None,
        },
    decreases elements, elements.len() + 1,
{
    let mut i: usize = elements.len();
    let mut found: Option<&'static str> = Option::None;
    while i > 0
        invariant
            i <= elements.len(),
            match found {
                Option::Some(w) => first_refused(elements@, i as nat) == Option::Some(w@),
                Option::None => first_refused(elements@, i as nat) is None,
            },
        decreases i,
    {
        let w = kotlin_refused_width(&elements[i - 1]);
        match w {
            Option::Some(_) => {
                found = w;
            },
            Option::None => {},
        }
        i = i - 1;
    }
    found
}

// ---------------------------------------------------------------------------------------------
// Names, type parameters, and the module text an item publishes.
// ---------------------------------------------------------------------------------------------

/// The name an item publishes under: its `name = "..."` override, or its own Rust ident.
pub open spec fn item_export_name(rust_ident: Seq<char>, name_override: Option<Seq<char>>) -> Seq<char> {
    match name_override {
        Option::Some(n) => n,
        Option::None => rust_ident,
    }
}

/// The name a type alias publishes under: its override, or its Rust ident with a `Type` suffix.
pub open spec fn alias_export_name(rust_ident: Seq<char>, name_override: Option<Seq<char>>) -> Seq<char> {
    match name_override {
        Option::Some(n) => n,
        Option::None => rust_ident + "Type"@,
    }
}

pub open spec fn override_text(name_override: Option<&str>) -> Option<Seq<char>> {
    match name_override {
        Option::Some(n) => Option::Some(n@),
        Option::None => Option::None,
    }
}

pub fn compute_item_export_name(rust_ident: &str, name_override: Option<&str>) -> (r: String)
    ensures
        r@ == item_export_name(rust_ident@, override_text(name_override)),
{
    match name_override {
        Option::Some(n) => String::from_str(n),
        Option::None => String::from_str(rust_ident),
    }
}

pub fn compute_alias_export_name(rust_ident: &str, name_override: Option<&str>) -> (r: String)
    ensures
        r@ == alias_export_name(rust_ident@, override_text(name_override)),
{
    match name_override {
        Option::Some(n) => String::from_str(n),
        Option::None => {
            let mut r = String::from_str(rust_ident);
            r.append("Type");
            r
        },
    }
}

/// `st` with `rust_ident` registered as publishing under `export_name`.
pub open spec fn registered(st: KotlinView, rust_ident: Seq<char>, export_name: Seq<char>) -> KotlinView {
    KotlinView { names: st.names.push((rust_ident, export_name)), aux: st.aux, counter: st.counter }
}

/// Registers the Kotlin name `rust_ident` publishes under, for a later sibling reference to read
/// back.
pub fn register_kotlin_name(st: &mut KotlinState, rust_ident: &str, export_name: &str)
    ensures
        final(st)@ == registered(old(st)@, rust_ident@, export_name@),
{
    st.names.register(rust_ident, export_name);
}

/// The Kotlin name registered for `rust_ident`, or `None` for a type not registered (yet).
pub fn lookup_kotlin_name(st: &KotlinState, rust_ident: &str) -> (r: Option<String>)
    ensures
        match r {
            Option::Some(s) => kotlin_name(st@, rust_ident@) == Option::Some(s@),
            Option::None => kotlin_name(st@, rust_ident@) is None,
        },
{
    st.names.lookup(rust_ident)
}

/// `<T, U>` for the type parameters `generics`, or nothing for none.
pub open spec fn generic_params_text(generics: Seq<Seq<char>>) -> Seq<char> {
    if generics.len() == 0 {
        Seq::empty()
    } else {
        "<"@ + join(generics, ", "@) + ">"@
    }
}

pub fn kotlin_generic_params(generics: &Vec<String>) -> (r: String)
    ensures
        r@ == generic_params_text(generics.deep_view()),
{
    if generics.len() == 0 {
        String::new()
    } else {
        let mut r = String::from_str("<");
        r.append(join_texts(generics, ", ").as_str());
        r.append(">");
        r
    }
}

/// The `typealias` a renamed item re-publishes under its own Rust ident; nothing for an item that
/// already publishes under it.
pub open spec fn ident_typealias_text(rust_ident: Seq<char>, export_name: Seq<char>, generic_params: Seq<char>) -> Seq<char> {
    if rust_ident == export_name {
        Seq::empty()
    } else {
        " typealias "@ + rust_ident + generic_params + " = "@ + export_name + generic_params + ";"@
    }
}

pub fn ident_typealias(rust_ident: &str, export_name: &str, generic_params: &str) -> (r: String)
    ensures
        r@ == ident_typealias_text(rust_ident@, export_name@, generic_params@),
{
    if same_text(rust_ident, export_name) {
        String::new()
    } else {
        let mut r = String::from_str(" typealias ");
        r.append(rust_ident);
        r.append(generic_params);
        r.append(" = ");
        r.append(export_name);
        r.append(generic_params);
        r.append(";");
        r
    }
}

/// What one item publishes: the `{snake}_kotlin` module it lives in and the Kotlin text its
/// `kotlin_definition()` answers.
#[derive(Debug)]
pub struct KotlinModule {
    pub module_ident: String,
    pub source: String,
}

/// The module an item with Rust ident `rust_ident` publishes from.
pub open spec fn module_ident_text(rust_ident: Seq<char>) -> Seq<char> {
    snake_variant(rust_ident) + "_kotlin"@
}

/// The module's text: every queued tuple wrapper, then the item's own declaration; the queue is
/// emptied.
pub open spec fn module_text(st: KotlinView, rust_ident: Seq<char>, kotlin_source: Seq<char>) -> (
    (Seq<char>, Seq<char>),
    KotlinView,
) {
    let full = if st.aux.len() == 0 {
        kotlin_source
    } else {
        join(st.aux, " "@) + " "@ + kotlin_source
    };
    (
        (module_ident_text(rust_ident), full),
        KotlinView { names: st.names, aux: Seq::empty(), counter: st.counter },
    )
}

/// The `{snake}_kotlin` module ident for `rust_ident`.
pub fn kotlin_module_ident(rust_ident: &str) -> (r: String)
    ensures
        r@ == module_ident_text(rust_ident@),
{
    let mut r = crate::rename_rule::to_snake_case(rust_ident);
    r.append("_kotlin");
    r
}

/// The module an item publishes from, its text led by whatever tuple wrappers its own fields
/// queued (which are then taken off the queue).
pub fn kotlin_module_tokens(st: &mut KotlinState, rust_ident: &str, kotlin_source: &str) -> (r: KotlinModule)
    ensures
        ((r.module_ident@, r.source@), final(st)@) == module_text(old(st)@, rust_ident@, kotlin_source@),
{
    let full = if st.tuple_aux.len() == 0 {
        String::from_str(kotlin_source)
    } else {
        let mut joined = join_texts(&st.tuple_aux, " ");
        joined.append(" ");
        joined.append(kotlin_source);
        joined
    };
    st.tuple_aux = Vec::new();
    assert(st.tuple_aux.deep_view() =~= Seq::<Seq<char>>::empty());
    KotlinModule { module_ident: kotlin_module_ident(rust_ident), source: full }
}


// ---------------------------------------------------------------------------------------------
// Fields and the properties they become.
// ---------------------------------------------------------------------------------------------

/// One field this module has decided belongs on the wire: its type, its Rust name, its wire name,
/// and whether the property is nullable — an `Option`, or a key serde may leave out when
/// serializing, which kotlinx cannot tell apart from an explicit `null`.
pub struct KotlinField<'a> {
    pub field_def: &'a FieldDef,
    pub rust_name: String,
    pub wire_name: String,
    pub optional: bool,
}

/// The plain contents of a [`KotlinField`].
pub struct FieldView {
    pub def: FieldDef,
    pub rust_name: Seq<char>,
    pub wire_name: Seq<char>,
    pub optional: bool,
}

impl<'a> View for KotlinField<'a> {
    type V = FieldView;

    open spec fn view(&self) -> FieldView {
        FieldView {
            def: *self.field_def,
            rust_name: self.rust_name@,
            wire_name: self.wire_name@,
            optional: self.optional,
        }
    }
}

pub open spec fn field_views<'a>(fields: Seq<KotlinField<'a>>) -> Seq<FieldView> {
    fields.map_values(|k: KotlinField<'a>| k@)
}

/// The wire name a field writes under: its own `rename`, or `rule` applied to its Rust name.
pub open spec fn wire_name_of(f: ItemField, rule: RenameRule) -> Seq<char> {
    match f.rename {
        Option::Some(r) => r@,
        Option::None => field_renamed(rule, f.rust_name@),
    }
}

pub open spec fn field_view(f: ItemField, rule: RenameRule) -> FieldView {
    FieldView {
        def: f.def,
        rust_name: f.rust_name@,
        wire_name: wire_name_of(f, rule),
        optional: optional(f.def) || f.omits_key,
    }
}

/// The fields of `fields` that travel on the wire, in order, as properties.
pub open spec fn kotlin_fields(fields: Seq<ItemField>, rule: RenameRule) -> Seq<FieldView>
    decreases fields.len(),
{
    if fields.len() == 0 {
        Seq::empty()
    } else {
        let before = kotlin_fields(fields.drop_last(), rule);
        if fields.last().absent_from_wire {
            before
        } else {
            before.push(field_view(fields.last(), rule))
        }
    }
}

/// Whether every field on the wire has a name the camel-casing of a property, and the
/// container's own rule, can be applied to.
pub open spec fn fields_ready(fields: Seq<ItemField>, rule: RenameRule) -> bool {
    forall|i: int|
        0 <= i < fields.len() && !fields[i].absent_from_wire ==> {
            &&& ascii_led(pascal_field(#[trigger] fields[i].rust_name@))
            &&& fields[i].rename is None ==> field_rule_applies(rule, fields[i].rust_name@)
        }
}

/// The named fields of `fields` on the wire; none for a tuple or unit shape.
pub open spec fn named_kotlin_fields(fields: ItemFields, rule: RenameRule) -> Seq<FieldView> {
    match fields {
        ItemFields::Named(v) => kotlin_fields(v@, rule),
        _ => Seq::empty(),
    }
}

pub open spec fn named_fields_ready(fields: ItemFields, rule: RenameRule) -> bool {
    match fields {
        ItemFields::Named(v) => fields_ready(v@, rule),
        _ => true,
    }
}

/// The wire name a field with Rust name `rust_name` and its own `rename` writes under, once
/// `rule` has had its say. An explicit rename always wins over the container's rule.
pub fn wire_field_name(rust_name: &str, rename: Option<&str>, rule: RenameRule) -> (r: String)
    requires
        rename is None ==> field_rule_applies(rule, rust_name@),
    ensures
        r@ == match rename {
            Option::Some(n) => n@,
            Option::None => field_renamed(rule, rust_name@),
        },
{
    match rename {
        Option::Some(n) => String::from_str(n),
        Option::None => rule.apply_to_field(rust_name),
    }
}

/// `rust_name` cased the way a Kotlin property is: `conversation_id` -> `conversationId`.
pub fn kotlin_property_name(rust_name: &str) -> (r: String)
    requires
        ascii_led(pascal_field(rust_name@)),
    ensures
        r@ == camel_field(rust_name@),
{
    RenameRule::CamelCase.apply_to_field(rust_name)
}

/// Whether `field` carries `#[model_schema_prop(nullable)]`.
pub fn is_nullable_flag(field: &FieldDef) -> (r: bool)
    ensures
        r == field.nullable,
{
    field.nullable
}

/// Whether `field` carries `#[model_schema_prop(as_number)]`.
pub fn has_as_number(field: &FieldDef) -> (r: bool)
    ensures
        r == field.as_number,
{
    field.as_number
}

/// Walks a named-field shape's fields into [`KotlinField`]s, dropping any field serde takes off
/// the wire in both directions; a field whose key serde may leave out is made nullable.
pub fn collect_kotlin_fields<'a>(fields: &'a ItemFields, rule: RenameRule) -> (r: Vec<KotlinField<'a>>)
    requires
        named_fields_ready(*fields, rule),
    ensures
        field_views(r@) == named_kotlin_fields(*fields, rule),
{
    let mut collected: Vec<KotlinField<'a>> = Vec::new();
    match fields {
        ItemFields::Named(named) => {
            let mut i: usize = 0;
            while i < named.len()
                invariant
                    i <= named.len(),
                    fields_ready(named@, rule),
                    field_views(collected@) =~= kotlin_fields(named@.take(i as int), rule),
                decreases named.len() - i,
            {
                assert(named@.take(i + 1).drop_last() =~= named@.take(i as int));
                let field = &named[i];
                if !field.absent_from_wire {
                    assert(!named@[i as int].absent_from_wire);
                    let rename: Option<&str> = match &field.rename {
                        Option::Some(n) => Option::Some(n.as_str()),
                        Option::None => Option::None,
                    };
                    let wire_name = wire_field_name(field.rust_name.as_str(), rename, rule);
                    let optional = field.def.is_optional() || field.omits_key;
                    let kept = KotlinField {
                        field_def: &field.def,
                        rust_name: field.rust_name.clone(),
                        wire_name,
                        optional,
                    };
                    collected.push(kept);
                }
                i = i + 1;
            }
            assert(named@.take(named.len() as int) =~= named@);
        },
        _ => {},
    }
    collected
}

/// One property declaration inside a constructor's parameter list: `@SerialName("...")` only where
/// the wire spelling differs from the Kotlin property, then `val name: Type`, then `= null` for a
/// nullable property whose key may be absent (one without `#[model_schema_prop(nullable)]`).
pub open spec fn property_text(st: KotlinView, f: FieldView) -> (Seq<char>, KotlinView) {
    let prop_name = camel_field(f.rust_name);
    let annotation = if prop_name == f.wire_name {
        Seq::empty()
    } else {
        "@SerialName(\""@ + f.wire_name + "\") "@
    };
    let (base, after) = kt_base(st, f.def.field_type, levels_of(f.def), f.def.as_number);
    let ty = if f.optional {
        base + "?"@
    } else {
        base
    };
    let default = if f.optional && !f.def.nullable {
        " = null"@
    } else {
        Seq::empty()
    };
    (annotation + "val "@ + prop_name + ": "@ + ty + default, after)
}

/// The declarations of the first `n` of `fields`, in order.
pub open spec fn property_texts(st: KotlinView, fields: Seq<FieldView>, n: nat) -> (
    Seq<Seq<char>>,
    KotlinView,
)
    decreases n,
{
    if n == 0 || n > fields.len() {
        (Seq::empty(), st)
    } else {
        let (before, st1) = property_texts(st, fields, (n - 1) as nat);
        let (declared, st2) = property_text(st1, fields[n - 1]);
        (before.push(declared), st2)
    }
}

/// The constructor parameter list a set of fields earns, joined by `, `.
pub open spec fn params_text(st: KotlinView, fields: Seq<FieldView>) -> (Seq<char>, KotlinView) {
    let (declared, after) = property_texts(st, fields, fields.len());
    (join(declared, ", "@), after)
}

pub open spec fn views_ready(fields: Seq<FieldView>) -> bool {
    forall|i: int| 0 <= i < fields.len() ==> ascii_led(pascal_field(#[trigger] fields[i].rust_name))
}

pub fn property_declaration(st: &mut KotlinState, field: &KotlinField) -> (r: String)
    requires
        ascii_led(pascal_field(field.rust_name@)),
    ensures
        (r@, final(st)@) == property_text(old(st)@, field@),
{
    let prop_name = kotlin_property_name(field.rust_name.as_str());
    let mut r = if same_text(prop_name.as_str(), field.wire_name.as_str()) {
        String::new()
    } else {
        let mut a = String::from_str("@SerialName(\"");
        a.append(field.wire_name.as_str());
        a.append("\") ");
        a
    };
    let mut ty = kotlin_base(st, field.field_def);
    if field.optional {
        ty.append("?");
    }
    r.append("val ");
    r.append(prop_name.as_str());
    r.append(": ");
    r.append(ty.as_str());
    if field.optional && !is_nullable_flag(field.field_def) {
        r.append(" = null");
    }
    r
}

/// The constructor parameter list `fields` earns, joined by `, `.
pub fn data_class_params(st: &mut KotlinState, fields: &Vec<KotlinField>) -> (r: String)
    requires
        views_ready(field_views(fields@)),
    ensures
        (r@, final(st)@) == params_text(old(st)@, field_views(fields@)),
{
    let ghost views = field_views(fields@);
    let mut declared: Vec<String> = Vec::new();
    let mut i: usize = 0;
    while i < fields.len()
        invariant
            i <= fields.len(),
            views == field_views(fields@),
            views.len() == fields.len(),
            views_ready(views),
            (declared.deep_view(), st@) == property_texts(old(st)@, views, i as nat),
        decreases fields.len() - i,
    {
        assert(views[i as int] == fields@[i as int]@);
        assert(ascii_led(pascal_field(views[i as int].rust_name)));
        let one = property_declaration(st, &fields[i]);
        let ghost before = declared.deep_view();
        declared.push(one);
        assert(declared.deep_view() =~= before.push(one@));
        i = i + 1;
    }
    join_texts(&declared, ", ")
}


// ---------------------------------------------------------------------------------------------
// Slot lists: a tuple struct's slots, a tuple variant's slots.
// ---------------------------------------------------------------------------------------------

/// The types of `fields`, leaving out those serde takes off the wire when `drop_absent`.
pub open spec fn slot_defs(fields: Seq<ItemField>, drop_absent: bool) -> Seq<FieldDef>
    decreases fields.len(),
{
    if fields.len() == 0 {
        Seq::empty()
    } else {
        let before = slot_defs(fields.drop_last(), drop_absent);
        if drop_absent && fields.last().absent_from_wire {
            before
        } else {
            before.push(fields.last().def)
        }
    }
}

pub open spec fn deref_defs<'a>(refs: Seq<&'a FieldDef>) -> Seq<FieldDef> {
    refs.map_values(|r: &'a FieldDef| *r)
}

/// References to the types of `fields`, leaving out those serde takes off the wire when
/// `drop_absent`.
pub fn slot_refs<'a>(fields: &'a Vec<ItemField>, drop_absent: bool) -> (r: Vec<&'a FieldDef>)
    ensures
        deref_defs(r@) == slot_defs(fields@, drop_absent),
{
    let mut r: Vec<&'a FieldDef> = Vec::new();
    let mut i: usize = 0;
    while i < fields.len()
        invariant
            i <= fields.len(),
            deref_defs(r@) =~= slot_defs(fields@.take(i as int), drop_absent),
        decreases fields.len() - i,
    {
        assert(fields@.take(i + 1).drop_last() =~= fields@.take(i as int));
        if !(drop_absent && fields[i].absent_from_wire) {
            r.push(&fields[i].def);
        }
        i = i + 1;
    }
    assert(fields@.take(fields.len() as int) =~= fields@);
    r
}

/// [`kt_items`] over a list of referenced types.
pub fn kotlin_items_of(st: &mut KotlinState, defs: &Vec<&FieldDef>, form: ListForm) -> (r: String)
    ensures
        (r@, final(st)@) == kt_items(old(st)@, deref_defs(defs@), defs.len() as nat, form),
{
    let ghost all = deref_defs(defs@);
    let mut r = String::new();
    let mut i: usize = 0;
    while i < defs.len()
        invariant
            i <= defs.len(),
            all == deref_defs(defs@),
            all.len() == defs.len(),
            (r@, st@) == kt_items(old(st)@, all, i as nat, form),
        decreases defs.len() - i,
    {
        assert(all[i as int] == *defs@[i as int]);
        let ty = kotlin_typename(st, defs[i]);
        let piece = form_piece_of(form, i, ty.as_str());
        if i == 0 {
            r = piece;
        } else {
            r.append(form_separator_of(form));
            r.append(piece.as_str());
        }
        i = i + 1;
    }
    r
}

/// [`kt_tuple`] over a list of referenced types.
pub fn tuple_wrapper_of(st: &mut KotlinState, defs: &Vec<&FieldDef>) -> (r: String)
    ensures
        (r@, final(st)@) == kt_tuple(old(st)@, deref_defs(defs@)),
{
    let number: u32 = if st.tuple_counter == u32::MAX {
        0
    } else {
        st.tuple_counter + 1
    };
    st.tuple_counter = number;
    let mut wrapper = String::from_str("KotlinTuple");
    wrapper.append(decimal_text(number as u64).as_str());
    let mut serializer = wrapper.clone();
    serializer.append("Serializer");
    let params = kotlin_items_of(st, defs, ListForm::Params);
    let encode = kotlin_items_of(st, defs, ListForm::Encode);
    let decode = kotlin_items_of(st, defs, ListForm::Decode);
    let declaration = tuple_wrapper_declaration(
        serializer.as_str(),
        wrapper.as_str(),
        params.as_str(),
        encode.as_str(),
        decode.as_str(),
    );
    let ghost before = st.tuple_aux.deep_view();
    st.tuple_aux.push(declaration);
    assert(st.tuple_aux.deep_view() =~= before.push(declaration@));
    wrapper
}

// ---------------------------------------------------------------------------------------------
// Structs and aliases.
// ---------------------------------------------------------------------------------------------

/// A `@JvmInline value class` over one wrapped value: a branded newtype or a bare single-slot
/// tuple struct, both serialized as the wrapped value alone.
pub open spec fn value_class_decl(
    st: KotlinView,
    rust_ident: Seq<char>,
    generics: Seq<Seq<char>>,
    name_override: Option<Seq<char>>,
    value_field: FieldDef,
) -> (Seq<char>, KotlinView) {
    let export_name = item_export_name(rust_ident, name_override);
    let st1 = registered(st, rust_ident, export_name);
    let generic_params = generic_params_text(generics);
    let (value_type, st2) = kt_typename(st1, value_field);
    let alias = ident_typealias_text(rust_ident, export_name, generic_params);
    let source = "@JvmInline @Serializable value class "@ + export_name + generic_params
        + "(val value: "@ + value_type + ")"@ + alias;
    (source, st2)
}

/// [`value_class_decl`], published as the item's module.
pub open spec fn value_class_module(st: KotlinView, rust_ident: Seq<char>, generics: Seq<Seq<char>>, name_override: Option<Seq<char>>, value_field: FieldDef) -> ((Seq<char>, Seq<char>), KotlinView) {
    let (source, before) = value_class_decl(st, rust_ident, generics, name_override, value_field);
    module_text(before, rust_ident, source)
}

/// A multi-slot tuple struct: a `data class` over one property per slot on the wire,
/// with the array `KSerializer` a tuple earns.
pub open spec fn tuple_struct_decl(
    st: KotlinView,
    rust_ident: Seq<char>,
    generics: Seq<Seq<char>>,
    name_override: Option<Seq<char>>,
    slots: Seq<FieldDef>,
) -> (Seq<char>, KotlinView) {
    let export_name = item_export_name(rust_ident, name_override);
    let st1 = registered(st, rust_ident, export_name);
    let generic_params = generic_params_text(generics);
    let serializer_name = export_name + "Serializer"@;
    let (params, st2) = kt_items(st1, slots, slots.len(), ListForm::Params);
    let (encode, st3) = kt_items(st2, slots, slots.len(), ListForm::Encode);
    let (decode, st4) = kt_items(st3, slots, slots.len(), ListForm::Decode);
    let alias = ident_typealias_text(rust_ident, export_name, generic_params);
    (tuple_struct_text(serializer_name, export_name, generic_params, params, encode, decode, alias), st4)
}

/// [`tuple_struct_decl`], published as the item's module.
pub open spec fn tuple_struct_module(st: KotlinView, rust_ident: Seq<char>, generics: Seq<Seq<char>>, name_override: Option<Seq<char>>, slots: Seq<FieldDef>) -> ((Seq<char>, Seq<char>), KotlinView) {
    let (source, before) = tuple_struct_decl(st, rust_ident, generics, name_override, slots);
    module_text(before, rust_ident, source)
}

/// A struct with named fields (or none): a `data class`, or a bare `class` with no field on the
/// wire, plus a `typealias` under its own Rust ident when renamed.
pub open spec fn named_struct_decl(st: KotlinView, item: StructItem, name_override: Option<Seq<char>>) -> (Seq<char>, KotlinView) {
    let rust_ident = item.ident@;
    let generics = item.generics.deep_view();
    let export_name = item_export_name(rust_ident, name_override);
    let st1 = registered(st, rust_ident, export_name);
    let rule = rule_named(opt_text(item.rename_all));
    let fields = named_kotlin_fields(item.fields, rule);
    let generic_params = generic_params_text(generics);
    let alias = ident_typealias_text(rust_ident, export_name, generic_params);
    let (params, st2) = params_text(st1, fields);
    let body = if fields.len() == 0 {
        "class "@ + export_name + generic_params
    } else {
        "data class "@ + export_name + generic_params + "("@ + params + ")"@
    };
    ("@Serializable "@ + body + alias, st2)
}

/// [`named_struct_decl`], published as the item's module.
pub open spec fn named_struct_module(st: KotlinView, item: StructItem, name_override: Option<Seq<char>>) -> ((Seq<char>, Seq<char>), KotlinView) {
    let (source, before) = named_struct_decl(st, item, name_override);
    module_text(before, item.ident@, source)
}

/// What a struct publishes: a value class for a single-slot tuple struct, branded
/// (`#[serde(transparent)]`) or not — serde writes either as the bare wrapped value — the tuple
/// form for any other tuple struct, and otherwise [`named_struct_module`].
pub open spec fn struct_module(st: KotlinView, item: StructItem, name_override: Option<Seq<char>>) -> (
    (Seq<char>, Seq<char>),
    KotlinView,
) {
    match item.fields {
        ItemFields::Unnamed(slots) => if slots.len() == 1 {
            value_class_module(st, item.ident@, item.generics.deep_view(), name_override, slots[0].def)
        } else {
            tuple_struct_module(st, item.ident@, item.generics.deep_view(), name_override, slot_defs(slots@, true))
        },
        _ => named_struct_module(st, item, name_override),
    }
}

/// The declaration a struct publishes, and the state it leaves before its module is written: see
/// [`struct_module`].
pub open spec fn struct_decl(st: KotlinView, item: StructItem, name_override: Option<Seq<char>>) -> (
    Seq<char>,
    KotlinView,
) {
    match item.fields {
        ItemFields::Unnamed(slots) => if slots.len() == 1 {
            value_class_decl(st, item.ident@, item.generics.deep_view(), name_override, slots[0].def)
        } else {
            tuple_struct_decl(st, item.ident@, item.generics.deep_view(), name_override, slot_defs(slots@, true))
        },
        _ => named_struct_decl(st, item, name_override),
    }
}

pub open spec fn struct_ready(item: StructItem) -> bool {
    named_fields_ready(item.fields, rule_named(opt_text(item.rename_all)))
}

fn opt_str(o: &Option<String>) -> (r: Option<&str>)
    ensures
        override_text(r) == opt_text(*o),
{
    match o {
        Option::Some(s) => Option::Some(s.as_str()),
        Option::None => Option::None,
    }
}

/// Fields' views are ready exactly where the fields they came from are.
proof fn lemma_kotlin_fields_ready(fields: Seq<ItemField>, rule: RenameRule)
    requires
        fields_ready(fields, rule),
    ensures
        views_ready(kotlin_fields(fields, rule)),
    decreases fields.len(),
{
    if fields.len() > 0 {
        let shorter = fields.drop_last();
        assert forall|i: int| 0 <= i < shorter.len() && !shorter[i].absent_from_wire implies {
            &&& ascii_led(pascal_field(#[trigger] shorter[i].rust_name@))
            &&& shorter[i].rename is None ==> field_rule_applies(rule, shorter[i].rust_name@)
        } by {
            assert(shorter[i] == fields[i]);
        }
        lemma_kotlin_fields_ready(shorter, rule);
        if !fields.last().absent_from_wire {
            assert(ascii_led(pascal_field(fields[fields.len() - 1].rust_name@)));
        }
    }
}

proof fn lemma_named_fields_ready(fields: ItemFields, rule: RenameRule)
    requires
        named_fields_ready(fields, rule),
    ensures
        views_ready(named_kotlin_fields(fields, rule)),
{
    match fields {
        ItemFields::Named(v) => lemma_kotlin_fields_ready(v@, rule),
        _ => {},
    }
}

/// The Kotlin text a `#[serde(transparent)]` single slot or a bare single-slot tuple struct
/// publishes.
pub fn value_class_tokens(
    st: &mut KotlinState,
    rust_ident: &str,
    generics: &Vec<String>,
    name_override: Option<&str>,
    value_field: &FieldDef,
) -> (r: KotlinModule)
    ensures
        ((r.module_ident@, r.source@), final(st)@) == value_class_module(
            old(st)@,
            rust_ident@,
            generics.deep_view(),
            override_text(name_override),
            *value_field,
        ),
{
    let export_name = compute_item_export_name(rust_ident, name_override);
    register_kotlin_name(st, rust_ident, export_name.as_str());
    let generic_params = kotlin_generic_params(generics);
    let value_type = kotlin_typename(st, value_field);
    let alias = ident_typealias(rust_ident, export_name.as_str(), generic_params.as_str());
    let mut source = String::from_str("@JvmInline @Serializable value class ");
    source.append(export_name.as_str());
    source.append(generic_params.as_str());
    source.append("(val value: ");
    source.append(value_type.as_str());
    source.append(")");
    source.append(alias.as_str());
    kotlin_module_tokens(st, rust_ident, source.as_str())
}

/// The Kotlin text a multi-slot tuple struct publishes.
pub fn tuple_struct_kotlin_tokens(
    st: &mut KotlinState,
    rust_ident: &str,
    generics: &Vec<String>,
    name_override: Option<&str>,
    slots: &Vec<ItemField>,
) -> (r: KotlinModule)
    ensures
        ((r.module_ident@, r.source@), final(st)@) == tuple_struct_module(
            old(st)@,
            rust_ident@,
            generics.deep_view(),
            override_text(name_override),
            slot_defs(slots@, true),
        ),
{
    let export_name = compute_item_export_name(rust_ident, name_override);
    register_kotlin_name(st, rust_ident, export_name.as_str());
    let kept = slot_refs(slots, true);
    let generic_params = kotlin_generic_params(generics);
    let mut serializer_name = export_name.clone();
    serializer_name.append("Serializer");
    let params = kotlin_items_of(st, &kept, ListForm::Params);
    let encode = kotlin_items_of(st, &kept, ListForm::Encode);
    let decode = kotlin_items_of(st, &kept, ListForm::Decode);
    let alias = ident_typealias(rust_ident, export_name.as_str(), generic_params.as_str());
    let source = tuple_struct_declaration(
        serializer_name.as_str(),
        export_name.as_str(),
        generic_params.as_str(),
        params.as_str(),
        encode.as_str(),
        decode.as_str(),
        alias.as_str(),
    );
    kotlin_module_tokens(st, rust_ident, source.as_str())
}

/// The Kotlin text a struct publishes, registering its Kotlin name.
pub fn struct_kotlin_tokens(st: &mut KotlinState, item: &StructItem, name_override: Option<&str>) -> (r: KotlinModule)
    requires
        struct_ready(*item),
    ensures
        ((r.module_ident@, r.source@), final(st)@) == struct_module(old(st)@, *item, override_text(name_override)),
{
    match &item.fields {
        ItemFields::Unnamed(slots) => {
            if slots.len() == 1 {
                value_class_tokens(st, item.ident.as_str(), &item.generics, name_override, &slots[0].def)
            } else {
                tuple_struct_kotlin_tokens(st, item.ident.as_str(), &item.generics, name_override, slots)
            }
        },
        _ => named_struct_kotlin_tokens(st, item, name_override),
    }
}

fn named_struct_kotlin_tokens(st: &mut KotlinState, item: &StructItem, name_override: Option<&str>) -> (r: KotlinModule)
    requires
        struct_ready(*item),
    ensures
        ((r.module_ident@, r.source@), final(st)@) == named_struct_module(old(st)@, *item, override_text(name_override)),
{
    let rust_ident = item.ident.as_str();
    let export_name = compute_item_export_name(rust_ident, name_override);
    register_kotlin_name(st, rust_ident, export_name.as_str());
    let rule = resolve_rename_rule(opt_str(&item.rename_all));
    proof {
        lemma_named_fields_ready(item.fields, rule);
    }
    let fields = collect_kotlin_fields(&item.fields, rule);
    let generic_params = kotlin_generic_params(&item.generics);
    let alias = ident_typealias(rust_ident, export_name.as_str(), generic_params.as_str());
    let params = data_class_params(st, &fields);
    let body = if fields.len() == 0 {
        let mut b = String::from_str("class ");
        b.append(export_name.as_str());
        b.append(generic_params.as_str());
        b
    } else {
        let mut b = String::from_str("data class ");
        b.append(export_name.as_str());
        b.append(generic_params.as_str());
        b.append("(");
        b.append(params.as_str());
        b.append(")");
        b
    };
    let mut source = String::from_str("@Serializable ");
    source.append(body.as_str());
    source.append(alias.as_str());
    kotlin_module_tokens(st, rust_ident, source.as_str())
}

/// A `typealias` pointing at the target's own rendering, plus the one re-publishing the alias
/// under its own Rust ident.
pub open spec fn alias_decl(st: KotlinView, item: AliasItem, name_override: Option<Seq<char>>) -> (Seq<char>, KotlinView) {
    let rust_ident = item.ident@;
    let export_name = alias_export_name(rust_ident, name_override);
    let st1 = registered(st, rust_ident, export_name);
    let generic_params = generic_params_text(item.generics.deep_view());
    let (target_type, st2) = kt_typename(st1, item.target);
    let alias = ident_typealias_text(rust_ident, export_name, generic_params);
    ("typealias "@ + export_name + generic_params + " = "@ + target_type + ";"@ + alias, st2)
}

/// [`alias_decl`], published as the item's module.
pub open spec fn alias_module(st: KotlinView, item: AliasItem, name_override: Option<Seq<char>>) -> ((Seq<char>, Seq<char>), KotlinView) {
    let (source, before) = alias_decl(st, item, name_override);
    module_text(before, item.ident@, source)
}

/// The Kotlin text a `type X = ...;` alias publishes.
pub fn alias_kotlin_tokens(st: &mut KotlinState, item: &AliasItem, name_override: Option<&str>) -> (r: KotlinModule)
    ensures
        ((r.module_ident@, r.source@), final(st)@) == alias_module(old(st)@, *item, override_text(name_override)),
{
    let rust_ident = item.ident.as_str();
    let export_name = compute_alias_export_name(rust_ident, name_override);
    register_kotlin_name(st, rust_ident, export_name.as_str());
    let generic_params = kotlin_generic_params(&item.generics);
    let target_type = kotlin_typename(st, &item.target);
    let alias = ident_typealias(rust_ident, export_name.as_str(), generic_params.as_str());
    let mut source = String::from_str("typealias ");
    source.append(export_name.as_str());
    source.append(generic_params.as_str());
    source.append(" = ");
    source.append(target_type.as_str());
    source.append(";");
    source.append(alias.as_str());
    kotlin_module_tokens(st, rust_ident, source.as_str())
}

// ---------------------------------------------------------------------------------------------
// Enums.
// ---------------------------------------------------------------------------------------------

/// One tagged or untagged variant's payload, classified once: nothing, named fields, one wrapped
/// value, or several slots (a tuple of them).
pub enum PayloadView {
    Unit,
    Named(Seq<FieldView>),
    Value(FieldDef),
    Slots(Seq<FieldDef>),
}

/// The payload `v` carries, its named fields read under `field_rule`.
pub open spec fn payload_view(v: VariantItem, field_rule: RenameRule) -> PayloadView {
    match v.fields {
        ItemFields::Unit => PayloadView::Unit,
        ItemFields::Named(fields) => PayloadView::Named(kotlin_fields(fields@, field_rule)),
        ItemFields::Unnamed(slots) => if slots.len() == 1 {
            PayloadView::Value(slots[0].def)
        } else {
            PayloadView::Slots(slot_defs(slots@, false))
        },
    }
}

/// One variant's payload, as [`payload_view`] classifies it.
pub enum VariantPayload<'a> {
    Unit,
    Named(Vec<KotlinField<'a>>),
    Value(&'a FieldDef),
    Slots(Vec<&'a FieldDef>),
}

impl<'a> View for VariantPayload<'a> {
    type V = PayloadView;

    open spec fn view(&self) -> PayloadView {
        match self {
            VariantPayload::Unit => PayloadView::Unit,
            VariantPayload::Named(fields) => PayloadView::Named(field_views(fields@)),
            VariantPayload::Value(def) => PayloadView::Value(**def),
            VariantPayload::Slots(defs) => PayloadView::Slots(deref_defs(defs@)),
        }
    }
}

pub fn variant_payload<'a>(variant: &'a VariantItem, field_rule: RenameRule) -> (r: VariantPayload<'a>)
    requires
        named_fields_ready(variant.fields, field_rule),
    ensures
        r@ == payload_view(*variant, field_rule),
{
    match &variant.fields {
        ItemFields::Unit => VariantPayload::Unit,
        ItemFields::Named(_) => VariantPayload::Named(collect_kotlin_fields(&variant.fields, field_rule)),
        ItemFields::Unnamed(slots) => {
            if slots.len() == 1 {
                VariantPayload::Value(&slots[0].def)
            } else {
                VariantPayload::Slots(slot_refs(slots, false))
            }
        },
    }
}

/// The type a value payload renders as: its one value's type, or its slots' tuple wrapper.
pub open spec fn payload_type(st: KotlinView, p: PayloadView) -> (Seq<char>, KotlinView) {
    match p {
        PayloadView::Value(def) => kt_typename(st, def),
        PayloadView::Slots(defs) => kt_tuple(st, defs),
        _ => (Seq::empty(), st),
    }
}

fn payload_typename(st: &mut KotlinState, payload: &VariantPayload) -> (r: String)
    ensures
        (r@, final(st)@) == payload_type(old(st)@, payload@),
{
    match payload {
        VariantPayload::Value(def) => kotlin_typename(st, def),
        VariantPayload::Slots(defs) => tuple_wrapper_of(st, defs),
        _ => String::new(),
    }
}

pub open spec fn payload_ready(p: PayloadView) -> bool {
    match p {
        PayloadView::Named(fields) => views_ready(fields),
        _ => true,
    }
}

pub open spec fn annotation_text(serial_name: Option<Seq<char>>) -> Seq<char> {
    match serial_name {
        Option::Some(wire) => "@SerialName(\""@ + wire + "\") "@,
        Option::None => Seq::empty(),
    }
}

/// One variant's own subclass declaration, implementing `export_name`: a `data object` for a
/// unit variant, a `data class` over named fields, and a one-value class otherwise — an inline
/// `value class` when `bare_value`, a `data class` property when not.
pub open spec fn subclass_text(
    st: KotlinView,
    export_name: Seq<char>,
    subclass_name: Seq<char>,
    generic_params: Seq<char>,
    serial_name: Option<Seq<char>>,
    bare_value: bool,
    p: PayloadView,
) -> (Seq<char>, KotlinView) {
    let annotation = annotation_text(serial_name);
    match p {
        PayloadView::Unit => (unit_subclass_text(annotation, subclass_name, export_name, generic_params), st),
        PayloadView::Named(fields) => {
            let (params, after) = params_text(st, fields);
            (named_subclass_text(annotation, subclass_name, generic_params, params, export_name), after)
        },
        _ => {
            let (value_type, after) = payload_type(st, p);
            (
                if bare_value {
                    bare_value_subclass_text(annotation, subclass_name, value_type, export_name, generic_params)
                } else {
                    value_subclass_text(annotation, subclass_name, value_type, export_name, generic_params)
                },
                after,
            )
        },
    }
}

fn annotation_of(serial_name: Option<&str>) -> (r: String)
    ensures
        r@ == annotation_text(override_text(serial_name)),
{
    match serial_name {
        Option::Some(wire) => {
            let mut r = String::from_str("@SerialName(\"");
            r.append(wire);
            r.append("\") ");
            r
        },
        Option::None => String::new(),
    }
}

pub fn variant_subclass(
    st: &mut KotlinState,
    export_name: &str,
    subclass_name: &str,
    generic_params: &str,
    serial_name: Option<&str>,
    bare_value: bool,
    payload: &VariantPayload,
) -> (r: String)
    requires
        payload_ready(payload@),
    ensures
        (r@, final(st)@) == subclass_text(
            old(st)@,
            export_name@,
            subclass_name@,
            generic_params@,
            override_text(serial_name),
            bare_value,
            payload@,
        ),
{
    let annotation = annotation_of(serial_name);
    match payload {
        VariantPayload::Unit => unit_subclass(annotation.as_str(), subclass_name, export_name, generic_params),
        VariantPayload::Named(fields) => {
            let params = data_class_params(st, fields);
            named_subclass(annotation.as_str(), subclass_name, generic_params, params.as_str(), export_name)
        },
        _ => {
            let value_type = payload_typename(st, payload);
            if bare_value {
                bare_value_subclass(annotation.as_str(), subclass_name, value_type.as_str(), export_name, generic_params)
            } else {
                value_subclass(annotation.as_str(), subclass_name, value_type.as_str(), export_name, generic_params)
            }
        },
    }
}

/// The wire tag a variant writes under: its own `rename`, or `rule` applied to its Rust name.
pub open spec fn wire_tag_of(v: VariantItem, rule: RenameRule) -> Seq<char> {
    match v.rename {
        Option::Some(r) => r@,
        Option::None => variant_renamed(rule, v.ident@),
    }
}

fn wire_tag(v: &VariantItem, rule: RenameRule) -> (r: String)
    requires
        v.rename is None ==> variant_rule_applies(rule, v.ident@),
    ensures
        r@ == wire_tag_of(*v, rule),
{
    match &v.rename {
        Option::Some(r) => r.clone(),
        Option::None => rule.apply_to_variant(v.ident.as_str()),
    }
}

/// Whether every variant's name can be renamed under `variant_rule` and every named payload's
/// fields read under `field_rule`.
pub open spec fn variants_ready(variants: Seq<VariantItem>, variant_rule: RenameRule, field_rule: RenameRule) -> bool {
    forall|i: int|
        0 <= i < variants.len() ==> {
            &&& (#[trigger] variants[i]).rename is None ==> variant_rule_applies(variant_rule, variants[i].ident@)
            &&& named_fields_ready(variants[i].fields, field_rule)
        }
}

pub open spec fn variant_rule_of(item: EnumItem) -> RenameRule {
    rule_named(opt_text(item.attrs.rename_all))
}

pub open spec fn field_rule_of(item: EnumItem) -> RenameRule {
    rule_named(opt_text(item.attrs.rename_all_fields))
}

pub open spec fn tag_key_of(item: EnumItem) -> Seq<char> {
    match opt_text(item.attrs.tag) {
        Option::Some(t) => t,
        Option::None => "type"@,
    }
}

/// Whether a tagged form (plain, internally tagged or dispatched) can read every name: each
/// variant's own name under the variant rule, and each payload's fields under the field rule.
pub open spec fn tagged_ready(item: EnumItem) -> bool {
    variants_ready(item.variants@, variant_rule_of(item), field_rule_of(item))
}

/// Whether the untagged form can read every name: it never renames a variant, so only each
/// payload's fields count.
pub open spec fn untagged_ready(item: EnumItem) -> bool {
    forall|i: int|
        0 <= i < item.variants.len() ==> named_fields_ready(
            #[trigger] item.variants@[i].fields,
            field_rule_of(item),
        )
}

/// Whether the form `item`'s attributes choose can read every name it renders.
pub open spec fn enum_ready(item: EnumItem) -> bool {
    if item.attrs.untagged {
        untagged_ready(item)
    } else {
        tagged_ready(item)
    }
}

proof fn lemma_variant_fields_ready(variants: Seq<VariantItem>, i: int, field_rule: RenameRule)
    requires
        named_fields_ready(variants[i].fields, field_rule),
    ensures
        payload_ready(payload_view(variants[i], field_rule)),
{
    lemma_named_fields_ready(variants[i].fields, field_rule);
}

proof fn lemma_variant_ready(variants: Seq<VariantItem>, i: int, variant_rule: RenameRule, field_rule: RenameRule)
    requires
        variants_ready(variants, variant_rule, field_rule),
        0 <= i < variants.len(),
    ensures
        variants[i].rename is None ==> variant_rule_applies(variant_rule, variants[i].ident@),
        named_fields_ready(variants[i].fields, field_rule),
        payload_ready(payload_view(variants[i], field_rule)),
{
    let v = variants[i];
    lemma_named_fields_ready(v.fields, field_rule);
}

/// The subclasses of the first `n` variants of an internally-tagged enum, each carrying its wire
/// tag as `@SerialName`.
pub open spec fn internal_subclasses(
    st: KotlinView,
    export_name: Seq<char>,
    generic_params: Seq<char>,
    variants: Seq<VariantItem>,
    n: nat,
    variant_rule: RenameRule,
    field_rule: RenameRule,
) -> (Seq<Seq<char>>, KotlinView)
    decreases n,
{
    if n == 0 || n > variants.len() {
        (Seq::empty(), st)
    } else {
        let (before, st1) = internal_subclasses(st, export_name, generic_params, variants, (n - 1) as nat, variant_rule, field_rule);
        let v = variants[n - 1];
        let (subclass, st2) = subclass_text(
            st1,
            export_name,
            export_name + v.ident@,
            generic_params,
            Option::Some(wire_tag_of(v, variant_rule)),
            false,
            payload_view(v, field_rule),
        );
        (before.push(subclass), st2)
    }
}

/// An internally-tagged enum (`tag`, no `content`): a `@JsonClassDiscriminator` sealed interface
/// and one subclass per variant.
pub open spec fn internal_source(st: KotlinView, export_name: Seq<char>, item: EnumItem) -> (Seq<char>, KotlinView) {
    let generic_params = generic_params_text(item.generics.deep_view());
    let (subclasses, after) = internal_subclasses(
        st,
        export_name,
        generic_params,
        item.variants@,
        item.variants.len() as nat,
        variant_rule_of(item),
        field_rule_of(item),
    );
    (internal_base_text(tag_key_of(item), export_name, generic_params) + " "@ + join(subclasses, " "@), after)
}

fn subclass_name_of(export_name: &str, variant_ident: &str) -> (r: String)
    ensures
        r@ == export_name@ + variant_ident@,
{
    let mut r = String::from_str(export_name);
    r.append(variant_ident);
    r
}

fn tag_key(item: &EnumItem) -> (r: String)
    ensures
        r@ == tag_key_of(*item),
{
    match &item.attrs.tag {
        Option::Some(t) => t.clone(),
        Option::None => String::from_str("type"),
    }
}

/// The Kotlin text an internally-tagged enum earns.
pub fn internal_tagged_enum_kotlin_source(st: &mut KotlinState, item: &EnumItem, export_name: &str) -> (r: String)
    requires
        tagged_ready(*item),
    ensures
        (r@, final(st)@) == internal_source(old(st)@, export_name@, *item),
{
    let tag = tag_key(item);
    let variant_rule = resolve_rename_rule(opt_str(&item.attrs.rename_all));
    let field_rule = resolve_rename_rule(opt_str(&item.attrs.rename_all_fields));
    let generic_params = kotlin_generic_params(&item.generics);
    let ghost variants = item.variants@;
    let mut subclasses: Vec<String> = Vec::new();
    let mut i: usize = 0;
    while i < item.variants.len()
        invariant
            i <= item.variants.len(),
            variants == item.variants@,
            variant_rule == variant_rule_of(*item),
            field_rule == field_rule_of(*item),
            tagged_ready(*item),
            (subclasses.deep_view(), st@) == internal_subclasses(
                old(st)@,
                export_name@,
                generic_params@,
                variants,
                i as nat,
                variant_rule,
                field_rule,
            ),
        decreases item.variants.len() - i,
    {
        let variant = &item.variants[i];
        proof {
            lemma_variant_ready(variants, i as int, variant_rule, field_rule);
        }
        let wire = wire_tag(variant, variant_rule);
        let subclass_name = subclass_name_of(export_name, variant.ident.as_str());
        let payload = variant_payload(variant, field_rule);
        let subclass = variant_subclass(
            st,
            export_name,
            subclass_name.as_str(),
            generic_params.as_str(),
            Option::Some(wire.as_str()),
            false,
            &payload,
        );
        let ghost before = subclasses.deep_view();
        subclasses.push(subclass);
        assert(subclasses.deep_view() =~= before.push(subclass@));
        i = i + 1;
    }
    let mut r = internal_base(tag.as_str(), export_name, generic_params.as_str());
    r.append(" ");
    r.append(join_texts(&subclasses, " ").as_str());
    r
}

/// A dispatched variant's three parts: its subclass, its serializer arm, and its deserializer
/// arm. `content` is the adjacent tagging's content key, or `None` for external tagging.
#[verifier::opaque]
pub open spec fn dispatched_variant(
    st: KotlinView,
    export_name: Seq<char>,
    generic_params: Seq<char>,
    tag_key: Seq<char>,
    content: Option<Seq<char>>,
    v: VariantItem,
    variant_rule: RenameRule,
    field_rule: RenameRule,
) -> (Seq<char>, Seq<char>, Seq<char>, KotlinView) {
    let wire = wire_tag_of(v, variant_rule);
    let subclass_name = export_name + v.ident@;
    let p = payload_view(v, field_rule);
    let (subclass, st1) = subclass_text(st, export_name, subclass_name, generic_params, Option::None, false, p);
    let (content_expr, st2) = match p {
        PayloadView::Unit => (Option::<Seq<char>>::None, st1),
        PayloadView::Named(_) => (Option::Some(named_content_text(subclass_name)), st1),
        _ => {
            let (ty, after) = payload_type(st1, p);
            (Option::Some(value_content_text(serializer_text(ty))), after)
        },
    };
    let data_ref = if content is Some {
        "data!!"@
    } else {
        "data"@
    };
    let (decode_expr, st3) = match p {
        PayloadView::Unit => (subclass_name, st2),
        PayloadView::Named(_) => (named_decode_text(subclass_name, data_ref), st2),
        _ => {
            let (ty, after) = payload_type(st2, p);
            (value_decode_text(subclass_name, serializer_text(ty), data_ref), after)
        },
    };
    let serialize_arm = match content {
        Option::Some(c) => match content_expr {
            Option::Some(e) => adjacent_content_arm_text(subclass_name, tag_key, wire, c, e),
            Option::None => adjacent_unit_arm_text(subclass_name, tag_key, wire),
        },
        Option::None => match content_expr {
            Option::Some(e) => external_content_arm_text(subclass_name, wire, e),
            Option::None => external_unit_arm_text(subclass_name, wire),
        },
    };
    (subclass, serialize_arm, deserialize_arm_text(wire, decode_expr), st3)
}

/// The parts of the first `n` variants, each list in variant order.
pub open spec fn dispatched_parts(
    st: KotlinView,
    export_name: Seq<char>,
    generic_params: Seq<char>,
    tag_key: Seq<char>,
    content: Option<Seq<char>>,
    variants: Seq<VariantItem>,
    n: nat,
    variant_rule: RenameRule,
    field_rule: RenameRule,
) -> (Seq<Seq<char>>, Seq<Seq<char>>, Seq<Seq<char>>, KotlinView)
    decreases n,
{
    if n == 0 || n > variants.len() {
        (Seq::empty(), Seq::empty(), Seq::empty(), st)
    } else {
        let (subclasses, serialize_arms, deserialize_arms, st1) = dispatched_parts(
            st,
            export_name,
            generic_params,
            tag_key,
            content,
            variants,
            (n - 1) as nat,
            variant_rule,
            field_rule,
        );
        let (subclass, serialize_arm, deserialize_arm, st2) = dispatched_variant(
            st1,
            export_name,
            generic_params,
            tag_key,
            content,
            variants[n - 1],
            variant_rule,
            field_rule,
        );
        (subclasses.push(subclass), serialize_arms.push(serialize_arm), deserialize_arms.push(deserialize_arm), st2)
    }
}

/// An adjacently-tagged (`tag` and `content`) or externally-tagged enum: a plain sealed
/// interface, one subclass per variant, and a generated `KSerializer` that reads and writes the
/// tag and content by hand.
pub open spec fn dispatched_source(st: KotlinView, export_name: Seq<char>, item: EnumItem) -> (Seq<char>, KotlinView) {
    let generic_params = generic_params_text(item.generics.deep_view());
    let content = opt_text(item.attrs.content);
    let tag_key = tag_key_of(item);
    let (subclasses, serialize_arms, deserialize_arms, after) = dispatched_parts(
        st,
        export_name,
        generic_params,
        tag_key,
        content,
        item.variants@,
        item.variants.len() as nat,
        variant_rule_of(item),
        field_rule_of(item),
    );
    let deserialize_body = match content {
        Option::None => external_deserialize_body_text(join(deserialize_arms, "; "@)),
        Option::Some(c) => adjacent_deserialize_body_text(tag_key, c, join(deserialize_arms, "; "@)),
    };
    let serializer_object = dispatched_serializer_text(
        export_name + "Serializer"@,
        export_name,
        generic_params,
        join(serialize_arms, "; "@),
        deserialize_body,
    );
    (
        "sealed interface "@ + export_name + generic_params + " "@ + join(subclasses, " "@) + " "@ + serializer_object,
        after,
    )
}

fn dispatched_variant_parts(
    st: &mut KotlinState,
    export_name: &str,
    generic_params: &str,
    tag_key: &str,
    content: Option<&str>,
    variant: &VariantItem,
    variant_rule: RenameRule,
    field_rule: RenameRule,
) -> (r: (String, String, String))
    requires
        variant.rename is None ==> variant_rule_applies(variant_rule, variant.ident@),
        payload_ready(payload_view(*variant, field_rule)),
        named_fields_ready(variant.fields, field_rule),
    ensures
        (r.0@, r.1@, r.2@, final(st)@) == dispatched_variant(
            old(st)@,
            export_name@,
            generic_params@,
            tag_key@,
            override_text(content),
            *variant,
            variant_rule,
            field_rule,
        ),
{
    reveal(dispatched_variant);
    let wire = wire_tag(variant, variant_rule);
    let subclass_name = subclass_name_of(export_name, variant.ident.as_str());
    let payload = variant_payload(variant, field_rule);
    let subclass = variant_subclass(
        st,
        export_name,
        subclass_name.as_str(),
        generic_params,
        Option::None,
        false,
        &payload,
    );
    let content_expr: Option<String> = match &payload {
        VariantPayload::Unit => Option::None,
        VariantPayload::Named(_) => Option::Some(named_content(subclass_name.as_str())),
        _ => {
            let ty = payload_typename(st, &payload);
            Option::Some(value_content(serializer_expr_of(ty.as_str()).as_str()))
        },
    };
    let data_ref = if content.is_some() {
        "data!!"
    } else {
        "data"
    };
    let decode_expr = match &payload {
        VariantPayload::Unit => subclass_name.clone(),
        VariantPayload::Named(_) => named_decode(subclass_name.as_str(), data_ref),
        _ => {
            let ty = payload_typename(st, &payload);
            value_decode(subclass_name.as_str(), serializer_expr_of(ty.as_str()).as_str(), data_ref)
        },
    };
    let serialize_arm = match content {
        Option::Some(c) => match &content_expr {
            Option::Some(e) => adjacent_content_arm(subclass_name.as_str(), tag_key, wire.as_str(), c, e.as_str()),
            Option::None => adjacent_unit_arm(subclass_name.as_str(), tag_key, wire.as_str()),
        },
        Option::None => match &content_expr {
            Option::Some(e) => external_content_arm(subclass_name.as_str(), wire.as_str(), e.as_str()),
            Option::None => external_unit_arm(subclass_name.as_str(), wire.as_str()),
        },
    };
    let deserialize_arm = deserialize_arm(wire.as_str(), decode_expr.as_str());
    (subclass, serialize_arm, deserialize_arm)
}

fn push_text(list: &mut Vec<String>, item: String)
    ensures
        final(list).deep_view() == old(list).deep_view().push(item@),
{
    let ghost before = list.deep_view();
    list.push(item);
    assert(list.deep_view() =~= before.push(item@));
}

fn dispatched_parts_of(
    st: &mut KotlinState,
    item: &EnumItem,
    export_name: &str,
    generic_params: &str,
    tag: &str,
    content: Option<&str>,
    variant_rule: RenameRule,
    field_rule: RenameRule,
) -> (r: (Vec<String>, Vec<String>, Vec<String>))
    requires
        tagged_ready(*item),
        variant_rule == variant_rule_of(*item),
        field_rule == field_rule_of(*item),
    ensures
        (r.0.deep_view(), r.1.deep_view(), r.2.deep_view(), final(st)@) == dispatched_parts(
            old(st)@,
            export_name@,
            generic_params@,
            tag@,
            override_text(content),
            item.variants@,
            item.variants.len() as nat,
            variant_rule,
            field_rule,
        ),
{
    let ghost variants = item.variants@;
    let mut subclasses: Vec<String> = Vec::new();
    let mut serialize_arms: Vec<String> = Vec::new();
    let mut deserialize_arms: Vec<String> = Vec::new();
    let mut i: usize = 0;
    while i < item.variants.len()
        invariant
            i <= item.variants.len(),
            variants == item.variants@,
            variant_rule == variant_rule_of(*item),
            field_rule == field_rule_of(*item),
            tagged_ready(*item),
            (subclasses.deep_view(), serialize_arms.deep_view(), deserialize_arms.deep_view(), st@)
                == dispatched_parts(
                old(st)@,
                export_name@,
                generic_params@,
                tag@,
                override_text(content),
                variants,
                i as nat,
                variant_rule,
                field_rule,
            ),
        decreases item.variants.len() - i,
    {
        proof {
            lemma_variant_ready(variants, i as int, variant_rule, field_rule);
        }
        let (subclass, serialize_arm, deserialize_arm) = dispatched_variant_parts(
            st,
            export_name,
            generic_params,
            tag,
            content,
            &item.variants[i],
            variant_rule,
            field_rule,
        );
        push_text(&mut subclasses, subclass);
        push_text(&mut serialize_arms, serialize_arm);
        push_text(&mut deserialize_arms, deserialize_arm);
        i = i + 1;
    }
    (subclasses, serialize_arms, deserialize_arms)
}

/// The Kotlin text an adjacently- or externally-tagged enum earns.
pub fn dispatched_tagged_enum_kotlin_source(st: &mut KotlinState, item: &EnumItem, export_name: &str) -> (r: String)
    requires
        tagged_ready(*item),
    ensures
        (r@, final(st)@) == dispatched_source(old(st)@, export_name@, *item),
{
    let tag = tag_key(item);
    let content = opt_str(&item.attrs.content);
    let variant_rule = resolve_rename_rule(opt_str(&item.attrs.rename_all));
    let field_rule = resolve_rename_rule(opt_str(&item.attrs.rename_all_fields));
    let generic_params = kotlin_generic_params(&item.generics);
    let (subclasses, serialize_arms, deserialize_arms) = dispatched_parts_of(
        st,
        item,
        export_name,
        generic_params.as_str(),
        tag.as_str(),
        content,
        variant_rule,
        field_rule,
    );
    let arms = join_texts(&deserialize_arms, "; ");
    let deserialize_body = match content {
        Option::None => external_deserialize_body(arms.as_str()),
        Option::Some(c) => adjacent_deserialize_body(tag.as_str(), c, arms.as_str()),
    };
    let serializer_name = subclass_name_of(export_name, "Serializer");
    let serializer_object = dispatched_serializer(
        serializer_name.as_str(),
        export_name,
        generic_params.as_str(),
        join_texts(&serialize_arms, "; ").as_str(),
        deserialize_body.as_str(),
    );
    let mut r = String::from_str("sealed interface ");
    r.append(export_name);
    r.append(generic_params.as_str());
    r.append(" ");
    r.append(join_texts(&subclasses, " ").as_str());
    r.append(" ");
    r.append(serializer_object.as_str());
    r
}

/// An untagged variant's parts: its subclass (an inline value class for a one-value payload, the
/// bare wire form), its serializer arm, and the deserializer chain extended by one more try.
pub open spec fn untagged_parts(
    st: KotlinView,
    export_name: Seq<char>,
    generic_params: Seq<char>,
    variants: Seq<VariantItem>,
    n: nat,
    field_rule: RenameRule,
) -> (Seq<Seq<char>>, Seq<Seq<char>>, Seq<char>, KotlinView)
    decreases n,
{
    if n == 0 || n > variants.len() {
        (Seq::empty(), Seq::empty(), "runCatching { error(\"unreachable\") as Nothing }"@, st)
    } else {
        let (subclasses, serialize_arms, chain, st1) = untagged_parts(
            st,
            export_name,
            generic_params,
            variants,
            (n - 1) as nat,
            field_rule,
        );
        let v = variants[n - 1];
        let subclass_name = export_name + v.ident@;
        let p = payload_view(v, field_rule);
        let bare_value = p is Value || p is Slots;
        let (subclass, st2) = subclass_text(st1, export_name, subclass_name, generic_params, Option::None, bare_value, p);
        (
            subclasses.push(subclass),
            serialize_arms.push(untagged_arm_text(subclass_name)),
            recover_text(chain, subclass_name, export_name, generic_params),
            st2,
        )
    }
}

/// A `#[serde(untagged)]` enum: a plain sealed interface and a generated `KSerializer` that tries
/// each variant's own serializer in turn, answering the first that decodes.
pub open spec fn untagged_source(st: KotlinView, export_name: Seq<char>, item: EnumItem) -> (Seq<char>, KotlinView) {
    let generic_params = generic_params_text(item.generics.deep_view());
    let (subclasses, serialize_arms, chain, after) = untagged_parts(
        st,
        export_name,
        generic_params,
        item.variants@,
        item.variants.len() as nat,
        field_rule_of(item),
    );
    let serializer_object = untagged_serializer_text(
        export_name + "Serializer"@,
        export_name,
        generic_params,
        join(serialize_arms, "; "@),
        chain,
    );
    (
        "sealed interface "@ + export_name + generic_params + " "@ + join(subclasses, " "@) + " "@ + serializer_object,
        after,
    )
}

/// The Kotlin text a `#[serde(untagged)]` enum earns.
pub fn untagged_enum_kotlin_source(st: &mut KotlinState, item: &EnumItem, export_name: &str) -> (r: String)
    requires
        untagged_ready(*item),
    ensures
        (r@, final(st)@) == untagged_source(old(st)@, export_name@, *item),
{
    let field_rule = resolve_rename_rule(opt_str(&item.attrs.rename_all_fields));
    let generic_params = kotlin_generic_params(&item.generics);
    let ghost variants = item.variants@;
    let mut subclasses: Vec<String> = Vec::new();
    let mut serialize_arms: Vec<String> = Vec::new();
    let mut chain = String::from_str("runCatching { error(\"unreachable\") as Nothing }");
    let mut i: usize = 0;
    while i < item.variants.len()
        invariant
            i <= item.variants.len(),
            variants == item.variants@,
            field_rule == field_rule_of(*item),
            untagged_ready(*item),
            (subclasses.deep_view(), serialize_arms.deep_view(), chain@, st@) == untagged_parts(
                old(st)@,
                export_name@,
                generic_params@,
                variants,
                i as nat,
                field_rule,
            ),
        decreases item.variants.len() - i,
    {
        proof {
            assert(named_fields_ready(item.variants@[i as int].fields, field_rule_of(*item)));
            lemma_variant_fields_ready(variants, i as int, field_rule);
        }
        let variant = &item.variants[i];
        let subclass_name = subclass_name_of(export_name, variant.ident.as_str());
        let payload = variant_payload(variant, field_rule);
        let bare_value = match &payload {
            VariantPayload::Value(_) | VariantPayload::Slots(_) => true,
            _ => false,
        };
        let subclass = variant_subclass(
            st,
            export_name,
            subclass_name.as_str(),
            generic_params.as_str(),
            Option::None,
            bare_value,
            &payload,
        );
        push_text(&mut subclasses, subclass);
        push_text(&mut serialize_arms, untagged_arm(subclass_name.as_str()));
        chain = recover(chain.as_str(), subclass_name.as_str(), export_name, generic_params.as_str());
        i = i + 1;
    }
    let serializer_name = subclass_name_of(export_name, "Serializer");
    let serializer_object = untagged_serializer(
        serializer_name.as_str(),
        export_name,
        generic_params.as_str(),
        join_texts(&serialize_arms, "; ").as_str(),
        chain.as_str(),
    );
    let mut r = String::from_str("sealed interface ");
    r.append(export_name);
    r.append(generic_params.as_str());
    r.append(" ");
    r.append(join_texts(&subclasses, " ").as_str());
    r.append(" ");
    r.append(serializer_object.as_str());
    r
}

/// One plain-enum member: its Rust ident, with `@SerialName` where its wire value differs.
pub open spec fn plain_member_text(v: VariantItem, rule: RenameRule) -> Seq<char> {
    let wire = wire_tag_of(v, rule);
    if v.ident@ == wire {
        v.ident@
    } else {
        "@SerialName(\""@ + wire + "\") "@ + v.ident@
    }
}

pub open spec fn plain_members(variants: Seq<VariantItem>, n: nat, rule: RenameRule) -> Seq<Seq<char>>
    decreases n,
{
    if n == 0 || n > variants.len() {
        Seq::empty()
    } else {
        plain_members(variants, (n - 1) as nat, rule).push(plain_member_text(variants[n - 1], rule))
    }
}

/// A plain (all-unit, string-wire) enum: a serializable `enum class`.
pub open spec fn plain_source(export_name: Seq<char>, item: EnumItem) -> Seq<char> {
    plain_enum_text(
        export_name,
        join(plain_members(item.variants@, item.variants.len() as nat, variant_rule_of(item)), ", "@),
    )
}

/// One plain-enum variant's Kotlin member name (its Rust ident, verbatim) and wire value.
pub fn plain_enum_member(variant: &VariantItem, rule: RenameRule) -> (r: (String, String))
    requires
        variant.rename is None ==> variant_rule_applies(rule, variant.ident@),
    ensures
        r.0@ == variant.ident@,
        r.1@ == wire_tag_of(*variant, rule),
{
    (variant.ident.clone(), wire_tag(variant, rule))
}

/// The Kotlin text a plain enum earns.
pub fn plain_enum_kotlin_source(item: &EnumItem, export_name: &str) -> (r: String)
    requires
        tagged_ready(*item),
    ensures
        r@ == plain_source(export_name@, *item),
{
    let rule = resolve_rename_rule(opt_str(&item.attrs.rename_all));
    let ghost variants = item.variants@;
    let mut members: Vec<String> = Vec::new();
    let mut i: usize = 0;
    while i < item.variants.len()
        invariant
            i <= item.variants.len(),
            variants == item.variants@,
            rule == variant_rule_of(*item),
            tagged_ready(*item),
            members.deep_view() == plain_members(variants, i as nat, rule),
        decreases item.variants.len() - i,
    {
        proof {
            lemma_variant_ready(variants, i as int, rule, field_rule_of(*item));
        }
        let (name, wire) = plain_enum_member(&item.variants[i], rule);
        let member = if same_text(name.as_str(), wire.as_str()) {
            name
        } else {
            let mut m = String::from_str("@SerialName(\"");
            m.append(wire.as_str());
            m.append("\") ");
            m.append(name.as_str());
            m
        };
        push_text(&mut members, member);
        i = i + 1;
    }
    plain_enum(export_name, join_texts(&members, ", ").as_str())
}

/// Whether every variant of `item` is a unit variant.
pub open spec fn plain_enum_item(item: EnumItem) -> bool {
    forall|i: int| 0 <= i < item.variants.len() ==> (#[trigger] item.variants@[i]).fields is Unit
}

pub fn is_plain_enum(item: &EnumItem) -> (r: bool)
    ensures
        r == plain_enum_item(*item),
{
    let mut i: usize = 0;
    while i < item.variants.len()
        invariant
            i <= item.variants.len(),
            forall|j: int| 0 <= j < i ==> (#[trigger] item.variants@[j]).fields is Unit,
        decreases item.variants.len() - i,
    {
        match &item.variants[i].fields {
            ItemFields::Unit => {},
            _ => {
                return false;
            },
        }
        i = i + 1;
    }
    true
}

/// What an enum publishes: an `enum class` for an all-unit enum written with bare variant names;
/// a sealed interface otherwise, in the untagged, internally-tagged, or dispatched form its
/// attributes choose.
pub open spec fn enum_decl(st: KotlinView, item: EnumItem, name_override: Option<Seq<char>>) -> (Seq<char>, KotlinView) {
    let rust_ident = item.ident@;
    let export_name = item_export_name(rust_ident, name_override);
    let st1 = registered(st, rust_ident, export_name);
    let attrs = item.attrs;
    let writes_bare_variant_names = attrs.tag is None && attrs.content is None && !attrs.untagged;
    let (source, st2) = if plain_enum_item(item) && writes_bare_variant_names {
        (plain_source(export_name, item), st1)
    } else if attrs.untagged {
        untagged_source(st1, export_name, item)
    } else if attrs.tag is Some && attrs.content is None {
        internal_source(st1, export_name, item)
    } else {
        dispatched_source(st1, export_name, item)
    };
    (source, st2)
}

/// [`enum_decl`], published as the item's module.
pub open spec fn enum_module(st: KotlinView, item: EnumItem, name_override: Option<Seq<char>>) -> ((Seq<char>, Seq<char>), KotlinView) {
    let (source, before) = enum_decl(st, item, name_override);
    module_text(before, item.ident@, source)
}

/// The Kotlin text an enum earns, registering its Kotlin name.
pub fn enum_kotlin_tokens(st: &mut KotlinState, item: &EnumItem, name_override: Option<&str>) -> (r: KotlinModule)
    requires
        enum_ready(*item),
    ensures
        ((r.module_ident@, r.source@), final(st)@) == enum_module(old(st)@, *item, override_text(name_override)),
{
    let rust_ident = item.ident.as_str();
    let export_name = compute_item_export_name(rust_ident, name_override);
    register_kotlin_name(st, rust_ident, export_name.as_str());
    let attrs = &item.attrs;
    let writes_bare_variant_names = attrs.tag.is_none() && attrs.content.is_none() && !attrs.untagged;
    let source = if is_plain_enum(item) && writes_bare_variant_names {
        plain_enum_kotlin_source(item, export_name.as_str())
    } else if attrs.untagged {
        untagged_enum_kotlin_source(st, item, export_name.as_str())
    } else if attrs.tag.is_some() && attrs.content.is_none() {
        internal_tagged_enum_kotlin_source(st, item, export_name.as_str())
    } else {
        dispatched_tagged_enum_kotlin_source(st, item, export_name.as_str())
    };
    kotlin_module_tokens(st, rust_ident, source.as_str())
}

/// Whether the Kotlin emitter can read every name in `item`.
pub open spec fn item_ready(item: Item) -> bool {
    match item {
        Item::Struct(s) => struct_ready(s),
        Item::Enum(e) => enum_ready(e),
        _ => true,
    }
}

/// Whether every field of `fields` on the wire has a name the emitter can read under `rule`: see
/// [`fields_ready`].
fn fields_readable(fields: &Vec<ItemField>, rule: RenameRule) -> (r: bool)
    ensures
        r == fields_ready(fields@, rule),
{
    let mut i: usize = 0;
    while i < fields.len()
        invariant
            i <= fields.len(),
            forall|j: int|
                0 <= j < i && !fields@[j].absent_from_wire ==> {
                    &&& ascii_led(pascal_field(#[trigger] fields@[j].rust_name@))
                    &&& fields@[j].rename is None ==> field_rule_applies(rule, fields@[j].rust_name@)
                },
        decreases fields.len() - i,
    {
        let f = &fields[i];
        if !f.absent_from_wire {
            let pascal = RenameRule::PascalCase.apply_to_field(f.rust_name.as_str());
            if !is_ascii_led(pascal.as_str()) {
                assert(fields@[i as int].rust_name@ == f.rust_name@);
                return false;
            }
        }
        i = i + 1;
    }
    true
}

fn named_fields_readable(fields: &ItemFields, rule: RenameRule) -> (r: bool)
    ensures
        r == named_fields_ready(*fields, rule),
{
    match fields {
        ItemFields::Named(v) => fields_readable(v, rule),
        _ => true,
    }
}

/// Whether the untagged form can read every name of `e`: see [`untagged_ready`].
fn untagged_readable(e: &EnumItem) -> (r: bool)
    ensures
        r == untagged_ready(*e),
{
    let field_rule = resolve_rename_rule(opt_str(&e.attrs.rename_all_fields));
    let mut i: usize = 0;
    while i < e.variants.len()
        invariant
            i <= e.variants.len(),
            field_rule == field_rule_of(*e),
            forall|j: int| 0 <= j < i ==> named_fields_ready(#[trigger] e.variants@[j].fields, field_rule),
        decreases e.variants.len() - i,
    {
        if !named_fields_readable(&e.variants[i].fields, field_rule) {
            assert(e.variants@[i as int] == e.variants[i as int]);
            return false;
        }
        i = i + 1;
    }
    true
}

/// Whether a tagged form can read every name of `e`: see [`tagged_ready`].
fn tagged_readable(e: &EnumItem) -> (r: bool)
    ensures
        r == tagged_ready(*e),
{
    let variant_rule = resolve_rename_rule(opt_str(&e.attrs.rename_all));
    let field_rule = resolve_rename_rule(opt_str(&e.attrs.rename_all_fields));
    let mut i: usize = 0;
    while i < e.variants.len()
        invariant
            i <= e.variants.len(),
            variant_rule == variant_rule_of(*e),
            field_rule == field_rule_of(*e),
            forall|j: int|
                0 <= j < i ==> {
                    &&& (#[trigger] e.variants@[j]).rename is None ==> variant_rule_applies(
                        variant_rule,
                        e.variants@[j].ident@,
                    )
                    &&& named_fields_ready(e.variants@[j].fields, field_rule)
                },
        decreases e.variants.len() - i,
    {
        let v = &e.variants[i];
        let renamed_ok = match &v.rename {
            Option::Some(_) => true,
            Option::None => variant_rule != RenameRule::CamelCase || is_ascii_led(v.ident.as_str()),
        };
        let fields_ok = named_fields_readable(&v.fields, field_rule);
        if !renamed_ok || !fields_ok {
            assert(e.variants@[i as int] == *v);
            assert(!((e.variants@[i as int].rename is None ==> variant_rule_applies(
                variant_rule,
                e.variants@[i as int].ident@,
            )) && named_fields_ready(e.variants@[i as int].fields, field_rule)));
            return false;
        }
        i = i + 1;
    }
    true
}

/// Whether the Kotlin emitter can read every name in `item`: see [`item_ready`].
pub fn is_item_ready(item: &Item) -> (r: bool)
    ensures
        r == item_ready(*item),
{
    match item {
        Item::Struct(s) => {
            let rule = resolve_rename_rule(opt_str(&s.rename_all));
            named_fields_readable(&s.fields, rule)
        },
        Item::Enum(e) => if e.attrs.untagged {
            untagged_readable(e)
        } else {
            tagged_readable(e)
        },
        _ => true,
    }
}

/// What `item` publishes, or nothing for an item this emitter has nothing to say about.
pub open spec fn dispatch_module(st: KotlinView, item: Item, name_override: Option<Seq<char>>) -> (
    Option<(Seq<char>, Seq<char>)>,
    KotlinView,
) {
    match item {
        Item::Struct(s) => {
            let (m, after) = struct_module(st, s, name_override);
            (Option::Some(m), after)
        },
        Item::Enum(e) => {
            let (m, after) = enum_module(st, e, name_override);
            (Option::Some(m), after)
        },
        Item::Type(a) => {
            let (m, after) = alias_module(st, a, name_override);
            (Option::Some(m), after)
        },
        Item::Other => (Option::None, st),
    }
}

/// The declaration `item` publishes, and the state it leaves just before its module is written
/// (its name registered, the wrappers its types queued); nothing for an item this emitter has
/// nothing to say about.
pub open spec fn item_decl(st: KotlinView, item: Item, name_override: Option<Seq<char>>) -> (
    Seq<char>,
    KotlinView,
) {
    match item {
        Item::Struct(s) => struct_decl(st, s, name_override),
        Item::Enum(e) => enum_decl(st, e, name_override),
        Item::Type(a) => alias_decl(st, a, name_override),
        Item::Other => (Seq::empty(), st),
    }
}

/// The Rust ident of a declared item.
pub open spec fn item_ident(item: Item) -> Seq<char> {
    match item {
        Item::Struct(s) => s.ident@,
        Item::Enum(e) => e.ident@,
        Item::Type(a) => a.ident@,
        Item::Other => Seq::empty(),
    }
}

pub open spec fn module_view(m: Option<KotlinModule>) -> Option<(Seq<char>, Seq<char>)> {
    match m {
        Option::Some(k) => Option::Some((k.module_ident@, k.source@)),
        Option::None => Option::None,
    }
}

/// The Kotlin text `item` earns, given the `name = "..."` override an author declared on it;
/// dispatches on the item's own shape.
pub fn kotlin_schema_dispatch(st: &mut KotlinState, item: &Item, name_override: Option<&str>) -> (r: Option<KotlinModule>)
    requires
        item_ready(*item),
    ensures
        (module_view(r), final(st)@) == dispatch_module(old(st)@, *item, override_text(name_override)),
{
    match item {
        Item::Struct(s) => Option::Some(struct_kotlin_tokens(st, s, name_override)),
        Item::Enum(e) => Option::Some(enum_kotlin_tokens(st, e, name_override)),
        Item::Type(a) => Option::Some(alias_kotlin_tokens(st, a, name_override)),
        Item::Other => Option::None,
    }
}

} // verus!
