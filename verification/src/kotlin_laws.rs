//! What holds of Kotlin rendering across every type and every state: rendering never touches the
//! registered names and only ever queues wrapper declarations, each numbered after the last; a
//! type with no tuple anywhere renders the same under any state with the same names, and queues
//! nothing; a registered name is what a later reference reads back; a renamed struct, like every
//! alias, re-publishes its own ident; an item's text leads with the wrappers queued for it and
//! empties the queue; a width is refused exactly when a `u64` or `usize` occurs in the type; a
//! type name ends in `?` exactly when the field is optional; a tuple wrapper reads slot `i` from
//! `array[i]`; a dispatched enum reads every variant back under the wire tag it writes it with;
//! and a field goes on the wire under its own `rename` whatever the container's rule.

use crate::field_def::{FieldDef, FieldDefType, element_levels, sequence_wrapper_name};
use crate::item::{Item, ItemFields};
use crate::kotlin::{
    kotlin_list_wrapped, kotlin_scalar, list_wrapped, first_refused, refused_width, item_decl, item_ident, module_ident_text, KotlinView, ListForm, alias_export_name, alias_module, dispatch_module, generic_params_text,
    ident_typealias_text, kotlin_name, kt_base, kt_items, kt_tuple, kt_typename, module_text,
    registered, struct_module,
};
use crate::kotlin_text::{
    adjacent_content_arm_text, adjacent_unit_arm_text, external_content_arm_text, external_unit_arm_text,
    adjacent_deserialize_body_text, dispatched_serializer_text, external_deserialize_body_text,
    tuple_struct_text, tuple_wrapper_text,
};
use crate::item::{EnumItem, VariantItem, opt_text};
use crate::rename_rule::{RenameRule, field_renamed, variant_renamed};
use crate::item::ItemField;
use crate::kotlin::{
    FieldView, kotlin_fields, named_kotlin_fields, named_struct_decl, params_text, property_text,
    property_texts,
};
use crate::item::StructItem;
use crate::rename_rule::{camel_field, rule_named};
use crate::kotlin::{
    dispatched_parts, dispatched_source, dispatched_variant, enum_decl, enum_module, field_rule_of,
    item_export_name, plain_enum_item, tag_key_of, variant_rule_of,
};
use crate::text::join;
use crate::names::lemma_register_then_lookup;
use crate::text::{decimal, digit_char};
use crate::field_def::{levels_of, optional};
use vstd::prelude::*;

verus! {

/// `after` keeps the names `before` registers and extends its queue of wrapper declarations.
pub open spec fn only_queues(before: KotlinView, after: KotlinView) -> bool {
    &&& after.names == before.names
    &&& before.aux.len() <= after.aux.len()
    &&& after.aux.subrange(0, before.aux.len() as int) == before.aux
}

pub proof fn lemma_only_queues_trans(a: KotlinView, b: KotlinView, c: KotlinView)
    requires
        only_queues(a, b),
        only_queues(b, c),
    ensures
        only_queues(a, c),
{
    assert(c.aux.subrange(0, a.aux.len() as int) =~= b.aux.subrange(0, a.aux.len() as int));
}

proof fn lemma_base_only_queues(st: KotlinView, ft: FieldDefType, levels: Seq<bool>, as_number: bool)
    ensures
        only_queues(st, kt_base(st, ft, levels, as_number).1),
    decreases ft, 0int,
{
    assert(st.aux.subrange(0, st.aux.len() as int) =~= st.aux);
    match ft {
        FieldDefType::SiblingType(name, generics) => {
            if generics.len() == 1 && sequence_wrapper_name(name@) {
                lemma_base_only_queues(
                    st,
                    generics[0].field_type,
                    element_levels(generics[0], levels),
                    as_number,
                );
            } else if generics.len() != 0 {
                lemma_items_only_queues(st, generics@, generics.len() as nat, ListForm::Args);
            }
        },
        FieldDefType::Tuple(elements) => {
            lemma_tuple_only_queues(st, elements@);
        },
        FieldDefType::MapOf(key, value) => {
            let st1 = kt_typename(st, *key).1;
            lemma_typename_only_queues(st, *key);
            lemma_typename_only_queues(st1, *value);
            lemma_only_queues_trans(st, st1, kt_typename(st1, *value).1);
        },
        _ => {},
    }
}

proof fn lemma_typename_only_queues(st: KotlinView, f: FieldDef)
    ensures
        only_queues(st, kt_typename(st, f).1),
    decreases f.field_type, 1int,
{
    lemma_base_only_queues(st, f.field_type, crate::field_def::levels_of(f), f.as_number);
}

proof fn lemma_items_only_queues(st: KotlinView, elements: Seq<FieldDef>, n: nat, form: ListForm)
    ensures
        only_queues(st, kt_items(st, elements, n, form).1),
    decreases elements, n,
{
    assert(st.aux.subrange(0, st.aux.len() as int) =~= st.aux);
    if !(n == 0 || n > elements.len()) {
        let st1 = kt_items(st, elements, (n - 1) as nat, form).1;
        lemma_items_only_queues(st, elements, (n - 1) as nat, form);
        lemma_typename_only_queues(st1, elements[n - 1]);
        lemma_only_queues_trans(st, st1, kt_typename(st1, elements[n - 1]).1);
    }
}

proof fn lemma_tuple_only_queues(st: KotlinView, elements: Seq<FieldDef>)
    ensures
        only_queues(st, kt_tuple(st, elements).1),
    decreases elements, elements.len() + 1,
{
    let n = elements.len() as nat;
    let st1 = KotlinView { names: st.names, aux: st.aux, counter: crate::kotlin::next_tuple_number(st.counter) };
    let st2 = kt_items(st1, elements, n, ListForm::Params).1;
    let st3 = kt_items(st2, elements, n, ListForm::Encode).1;
    let st4 = kt_items(st3, elements, n, ListForm::Decode).1;
    lemma_items_only_queues(st1, elements, n, ListForm::Params);
    lemma_items_only_queues(st2, elements, n, ListForm::Encode);
    lemma_items_only_queues(st3, elements, n, ListForm::Decode);
    assert(st1.aux.subrange(0, st.aux.len() as int) =~= st.aux);
    lemma_only_queues_trans(st, st1, st2);
    lemma_only_queues_trans(st, st2, st3);
    lemma_only_queues_trans(st, st3, st4);
    let after = kt_tuple(st, elements).1;
    assert(after.aux.subrange(0, st4.aux.len() as int) =~= st4.aux);
    lemma_only_queues_trans(st, st4, after);
}

/// Rendering a type never changes the Kotlin names registered so far, and only ever appends
/// wrapper declarations to the queue: whatever was queued before is still there, in order.
pub proof fn lemma_rendering_only_queues(st: KotlinView, f: FieldDef)
    ensures
        only_queues(st, kt_typename(st, f).1),
{
    lemma_typename_only_queues(st, f);
}

/// Whether no tuple occurs anywhere in `ft`: not at the top, nor in a sibling type's arguments,
/// nor in a map's key or value.
pub open spec fn tuple_free_type(ft: FieldDefType) -> bool
    decreases ft, 0int,
{
    match ft {
        FieldDefType::Tuple(_) => false,
        FieldDefType::SiblingType(_, generics) => all_tuple_free(generics@, generics.len() as nat),
        FieldDefType::MapOf(key, value) => tuple_free(*key) && tuple_free(*value),
        _ => true,
    }
}

/// Whether no tuple occurs anywhere in the field's type.
pub open spec fn tuple_free(f: FieldDef) -> bool
    decreases f.field_type, 1int,
{
    tuple_free_type(f.field_type)
}

/// Whether the first `n` of `elements` are all tuple-free.
pub open spec fn all_tuple_free(elements: Seq<FieldDef>, n: nat) -> bool
    decreases elements, n,
{
    if n == 0 || n > elements.len() {
        true
    } else {
        all_tuple_free(elements, (n - 1) as nat) && tuple_free(elements[n - 1])
    }
}

proof fn lemma_all_tuple_free_at(elements: Seq<FieldDef>, n: nat, i: int)
    requires
        all_tuple_free(elements, n),
        n <= elements.len(),
        0 <= i < n,
    ensures
        tuple_free(elements[i]),
    decreases n,
{
    if i < n - 1 {
        lemma_all_tuple_free_at(elements, (n - 1) as nat, i);
    }
}

proof fn lemma_base_stable(
    st1: KotlinView,
    st2: KotlinView,
    ft: FieldDefType,
    levels: Seq<bool>,
    as_number: bool,
)
    requires
        tuple_free_type(ft),
        st1.names == st2.names,
    ensures
        kt_base(st1, ft, levels, as_number).0 == kt_base(st2, ft, levels, as_number).0,
        kt_base(st1, ft, levels, as_number).1 == st1,
        kt_base(st2, ft, levels, as_number).1 == st2,
    decreases ft, 0int,
{
    match ft {
        FieldDefType::SiblingType(name, generics) => {
            if generics.len() == 1 && sequence_wrapper_name(name@) {
                lemma_all_tuple_free_at(generics@, 1, 0);
                lemma_base_stable(
                    st1,
                    st2,
                    generics[0].field_type,
                    element_levels(generics[0], levels),
                    as_number,
                );
            } else if generics.len() != 0 {
                lemma_items_stable(st1, st2, generics@, generics.len() as nat, ListForm::Args);
            }
        },
        FieldDefType::MapOf(key, value) => {
            lemma_typename_stable(st1, st2, *key);
            lemma_typename_stable(st1, st2, *value);
        },
        _ => {},
    }
}

proof fn lemma_typename_stable(st1: KotlinView, st2: KotlinView, f: FieldDef)
    requires
        tuple_free(f),
        st1.names == st2.names,
    ensures
        kt_typename(st1, f).0 == kt_typename(st2, f).0,
        kt_typename(st1, f).1 == st1,
        kt_typename(st2, f).1 == st2,
    decreases f.field_type, 1int,
{
    lemma_base_stable(st1, st2, f.field_type, crate::field_def::levels_of(f), f.as_number);
}

proof fn lemma_items_stable(
    st1: KotlinView,
    st2: KotlinView,
    elements: Seq<FieldDef>,
    n: nat,
    form: ListForm,
)
    requires
        all_tuple_free(elements, n),
        st1.names == st2.names,
    ensures
        kt_items(st1, elements, n, form).0 == kt_items(st2, elements, n, form).0,
        kt_items(st1, elements, n, form).1 == st1,
        kt_items(st2, elements, n, form).1 == st2,
    decreases elements, n,
{
    if !(n == 0 || n > elements.len()) {
        lemma_items_stable(st1, st2, elements, (n - 1) as nat, form);
        let s1 = kt_items(st1, elements, (n - 1) as nat, form).1;
        let s2 = kt_items(st2, elements, (n - 1) as nat, form).1;
        lemma_typename_stable(s1, s2, elements[n - 1]);
    }
}

/// A type with no tuple anywhere renders to the same text under any two states that register the
/// same names, and rendering it leaves the state as it was: it queues no wrapper.
pub proof fn lemma_tuple_free_rendering_is_stable(st1: KotlinView, st2: KotlinView, f: FieldDef)
    requires
        tuple_free(f),
        st1.names == st2.names,
    ensures
        kt_typename(st1, f).0 == kt_typename(st2, f).0,
        kt_typename(st1, f).1 == st1,
{
    lemma_typename_stable(st1, st2, f);
}

/// Registering a Kotlin name makes a later reference to that ident read it back, and leaves what
/// every other ident reads as it was.
pub proof fn lemma_registered_name_reads_back(
    st: KotlinView,
    rust_ident: Seq<char>,
    export_name: Seq<char>,
    other: Seq<char>,
)
    ensures
        kotlin_name(registered(st, rust_ident, export_name), rust_ident) == Option::Some(
            export_name,
        ),
        other != rust_ident ==> kotlin_name(registered(st, rust_ident, export_name), other)
            == kotlin_name(st, other),
{
    lemma_register_then_lookup(st.names, rust_ident, export_name, other);
}

/// Whether `s` ends with `t`.
pub open spec fn ends_with(s: Seq<char>, t: Seq<char>) -> bool {
    t.len() <= s.len() && s.subrange(s.len() - t.len(), s.len() as int) == t
}

proof fn lemma_ends_with_after(a: Seq<char>, b: Seq<char>, t: Seq<char>)
    requires
        ends_with(b, t),
    ensures
        ends_with(a + b, t),
{
    assert((a + b).subrange((a + b).len() - t.len(), (a + b).len() as int) =~= b.subrange(
        b.len() - t.len(),
        b.len() as int,
    ));
}

proof fn lemma_ends_with_self(a: Seq<char>, t: Seq<char>)
    ensures
        ends_with(a + t, t),
{
    assert((a + t).subrange((a + t).len() - t.len(), (a + t).len() as int) =~= t);
}

proof fn lemma_module_keeps_suffix(st: KotlinView, rust_ident: Seq<char>, source: Seq<char>, t: Seq<char>)
    requires
        ends_with(source, t),
    ensures
        ends_with(module_text(st, rust_ident, source).0.1, t),
{
    if st.aux.len() != 0 {
        lemma_ends_with_after(join(st.aux, " "@) + " "@, source, t);
    }
}

/// A struct published under a name other than its own Rust ident re-publishes that ident too, as
/// a `typealias` closing its text, so a reference written before the rename still resolves; and
/// so does every type alias, whose published name is never its ident (it takes a `Type` suffix
/// when no name is given).
pub proof fn lemma_renamed_item_republishes_its_ident(
    st: KotlinView,
    item: Item,
    name_override: Option<Seq<char>>,
)
    requires
        match item {
            Item::Struct(s) => name_override matches Option::Some(n) && n != s.ident@,
            Item::Type(a) => name_override != Option::Some(a.ident@),
            _ => false,
        },
    ensures
        match item {
            Item::Struct(s) => ends_with(
                dispatch_module(st, item, name_override).0.unwrap().1,
                ident_typealias_text(s.ident@, name_override.unwrap(), generic_params_text(s.generics.deep_view())),
            ),
            Item::Type(a) => ends_with(
                dispatch_module(st, item, name_override).0.unwrap().1,
                ident_typealias_text(
                    a.ident@,
                    alias_export_name(a.ident@, name_override),
                    generic_params_text(a.generics.deep_view()),
                ),
            ),
            _ => true,
        },
{
    match item {
        Item::Struct(s) => {
            let ident = s.ident@;
            let n = name_override.unwrap();
            let params = generic_params_text(s.generics.deep_view());
            let alias = ident_typealias_text(ident, n, params);
            let st1 = registered(st, ident, n);
            match s.fields {
                ItemFields::Unnamed(slots) => {
                    if slots.len() == 1 {
                        let (value_type, st2) = kt_typename(st1, slots[0].def);
                        let body = "@JvmInline @Serializable value class "@ + n + params
                            + "(val value: "@ + value_type + ")"@;
                        lemma_ends_with_self(body, alias);
                        assert(body + alias == "@JvmInline @Serializable value class "@ + n + params
                            + "(val value: "@ + value_type + ")"@ + alias);
                        lemma_module_keeps_suffix(st2, ident, body + alias, alias);
                    } else {
                        let slot_list = crate::kotlin::slot_defs(slots@, true);
                        let serializer_name = n + "Serializer"@;
                        let (params_text, st2) = kt_items(st1, slot_list, slot_list.len(), ListForm::Params);
                        let (encode, st3) = kt_items(st2, slot_list, slot_list.len(), ListForm::Encode);
                        let (decode, st4) = kt_items(st3, slot_list, slot_list.len(), ListForm::Decode);
                        let source = tuple_struct_text(serializer_name, n, params, params_text, encode, decode, alias);
                        let front = tuple_struct_text(serializer_name, n, params, params_text, encode, decode, Seq::empty());
                        assert(source =~= front + alias);
                        lemma_ends_with_self(front, alias);
                        lemma_module_keeps_suffix(st4, ident, source, alias);
                    }
                },
                _ => {
                    let rule = crate::rename_rule::rule_named(crate::item::opt_text(s.rename_all));
                    let fields = crate::kotlin::named_kotlin_fields(s.fields, rule);
                    let (params_text, st2) = crate::kotlin::params_text(st1, fields);
                    let body = if fields.len() == 0 {
                        "class "@ + n + params
                    } else {
                        "data class "@ + n + params + "("@ + params_text + ")"@
                    };
                    let front = "@Serializable "@ + body;
                    lemma_ends_with_self(front, alias);
                    assert("@Serializable "@ + body + alias == front + alias);
                    lemma_module_keeps_suffix(st2, ident, front + alias, alias);
                },
            }
        },
        Item::Type(a) => {
            let ident = a.ident@;
            let export_name = alias_export_name(ident, name_override);
            let params = generic_params_text(a.generics.deep_view());
            let alias = ident_typealias_text(ident, export_name, params);
            let st1 = registered(st, ident, export_name);
            let (target_type, st2) = kt_typename(st1, a.target);
            let front = "typealias "@ + export_name + params + " = "@ + target_type + ";"@;
            lemma_ends_with_self(front, alias);
            assert("typealias "@ + export_name + params + " = "@ + target_type + ";"@ + alias == front + alias);
            lemma_module_keeps_suffix(st2, ident, front + alias, alias);
            assert(dispatch_module(st, item, name_override).0.unwrap().1 == alias_module(st, a, name_override).0.1);
        },
        _ => {},
    }
}

/// How many tuple wrappers rendering `ft` queues: one per tuple, and a tuple's elements are
/// rendered three times over (its slots, its encoder, its decoder).
pub open spec fn wrapper_count_type(ft: FieldDefType) -> nat
    decreases ft, 0int,
{
    match ft {
        FieldDefType::SiblingType(name, generics) => {
            if generics.len() == 1 && sequence_wrapper_name(name@) {
                wrapper_count_type(generics[0].field_type)
            } else if generics.len() == 0 {
                0
            } else {
                wrapper_count_all(generics@, generics.len() as nat)
            }
        },
        FieldDefType::Tuple(elements) => 1 + 3 * wrapper_count_all(elements@, elements.len() as nat),
        FieldDefType::MapOf(key, value) => wrapper_count(*key) + wrapper_count(*value),
        _ => 0,
    }
}

/// How many tuple wrappers rendering `f` queues.
pub open spec fn wrapper_count(f: FieldDef) -> nat
    decreases f.field_type, 1int,
{
    wrapper_count_type(f.field_type)
}

/// How many tuple wrappers rendering the first `n` of `elements` queues.
pub open spec fn wrapper_count_all(elements: Seq<FieldDef>, n: nat) -> nat
    decreases elements, n,
{
    if n == 0 || n > elements.len() {
        0
    } else {
        wrapper_count_all(elements, (n - 1) as nat) + wrapper_count(elements[n - 1])
    }
}

/// `after` has queued `k` more wrappers than `before`, and handed out `k` more numbers (the last
/// one wrapping at `u32::MAX`).
pub open spec fn advanced(before: KotlinView, after: KotlinView, k: nat) -> bool {
    &&& after.counter as int == (before.counter + k) % 0x1_0000_0000
    &&& after.aux.len() == before.aux.len() + k
}

proof fn lemma_advanced_trans(a: KotlinView, b: KotlinView, c: KotlinView, k1: nat, k2: nat)
    requires
        advanced(a, b, k1),
        advanced(b, c, k2),
    ensures
        advanced(a, c, k1 + k2),
{
    let m: int = 0x1_0000_0000;
    let x: int = a.counter + k1;
    assert(((x % m) + k2) % m == (x + k2) % m) by (nonlinear_arith)
        requires
            m == 0x1_0000_0000,
            x >= 0,
            k2 >= 0,
    ;
}

proof fn lemma_base_advances(st: KotlinView, ft: FieldDefType, levels: Seq<bool>, as_number: bool)
    ensures
        advanced(st, kt_base(st, ft, levels, as_number).1, wrapper_count_type(ft)),
    decreases ft, 0int,
{
    match ft {
        FieldDefType::SiblingType(name, generics) => {
            if generics.len() == 1 && sequence_wrapper_name(name@) {
                lemma_base_advances(
                    st,
                    generics[0].field_type,
                    element_levels(generics[0], levels),
                    as_number,
                );
            } else if generics.len() != 0 {
                lemma_items_advance(st, generics@, generics.len() as nat, ListForm::Args);
            }
        },
        FieldDefType::Tuple(elements) => {
            lemma_tuple_advances(st, elements@);
        },
        FieldDefType::MapOf(key, value) => {
            let st1 = kt_typename(st, *key).1;
            lemma_typename_advances(st, *key);
            lemma_typename_advances(st1, *value);
            lemma_advanced_trans(st, st1, kt_typename(st1, *value).1, wrapper_count(*key), wrapper_count(*value));
        },
        _ => {},
    }
}

proof fn lemma_typename_advances(st: KotlinView, f: FieldDef)
    ensures
        advanced(st, kt_typename(st, f).1, wrapper_count(f)),
    decreases f.field_type, 1int,
{
    lemma_base_advances(st, f.field_type, crate::field_def::levels_of(f), f.as_number);
}

proof fn lemma_items_advance(st: KotlinView, elements: Seq<FieldDef>, n: nat, form: ListForm)
    ensures
        advanced(st, kt_items(st, elements, n, form).1, wrapper_count_all(elements, n)),
    decreases elements, n,
{
    if !(n == 0 || n > elements.len()) {
        let st1 = kt_items(st, elements, (n - 1) as nat, form).1;
        lemma_items_advance(st, elements, (n - 1) as nat, form);
        lemma_typename_advances(st1, elements[n - 1]);
        lemma_advanced_trans(
            st,
            st1,
            kt_typename(st1, elements[n - 1]).1,
            wrapper_count_all(elements, (n - 1) as nat),
            wrapper_count(elements[n - 1]),
        );
    }
}

proof fn lemma_tuple_advances(st: KotlinView, elements: Seq<FieldDef>)
    ensures
        advanced(st, kt_tuple(st, elements).1, 1 + 3 * wrapper_count_all(elements, elements.len() as nat)),
    decreases elements, elements.len() + 1,
{
    let n = elements.len() as nat;
    let w = wrapper_count_all(elements, n);
    let st1 = KotlinView { names: st.names, aux: st.aux, counter: crate::kotlin::next_tuple_number(st.counter) };
    let st2 = kt_items(st1, elements, n, ListForm::Params).1;
    let st3 = kt_items(st2, elements, n, ListForm::Encode).1;
    lemma_items_advance(st1, elements, n, ListForm::Params);
    lemma_items_advance(st2, elements, n, ListForm::Encode);
    lemma_items_advance(st3, elements, n, ListForm::Decode);
    lemma_advanced_trans(st1, st2, st3, w, w);
    lemma_advanced_trans(st1, st3, kt_items(st3, elements, n, ListForm::Decode).1, w + w, w);
    let m: int = 0x1_0000_0000;
    let c: int = st.counter as int;
    assert(st1.counter as int == (c + 1) % m);
    assert((((c + 1) % m) + 3 * w) % m == (c + 1 + 3 * w) % m) by (nonlinear_arith)
        requires
            m == 0x1_0000_0000,
            c >= 0,
            w >= 0,
    ;
}

/// Every tuple wrapper takes the number after the last one handed out: rendering `f` queues
/// exactly [`wrapper_count`] declarations and moves the last number handed out on by as many,
/// wrapping at `u32::MAX`.
pub proof fn lemma_wrappers_numbered_in_sequence(st: KotlinView, f: FieldDef)
    ensures
        advanced(st, kt_typename(st, f).1, wrapper_count(f)),
{
    lemma_typename_advances(st, f);
}

/// Publishing an item takes every queued wrapper declaration into its own text: afterwards the
/// queue is empty, whatever the item's shape.
pub proof fn lemma_publishing_takes_the_queue(st: KotlinView, item: Item, name_override: Option<Seq<char>>)
    requires
        !(item is Other),
    ensures
        dispatch_module(st, item, name_override).1.aux.len() == 0,
{
}

/// An item's module is named `{snake}_kotlin` after its Rust ident, and its text is every wrapper
/// declaration queued by the time its own declaration is written, joined by spaces, ahead of that
/// declaration — so, with nothing queued before the item, exactly the wrappers its own types
/// queued. Afterwards the queue is empty.
pub proof fn lemma_item_module_leads_with_its_wrappers(
    st: KotlinView,
    item: Item,
    name_override: Option<Seq<char>>,
)
    requires
        !(item is Other),
    ensures
        ({
            let (declaration, before) = item_decl(st, item, name_override);
            let (published, after) = dispatch_module(st, item, name_override);
            &&& published == Option::Some(
                (
                    module_ident_text(item_ident(item)),
                    if before.aux.len() == 0 {
                        declaration
                    } else {
                        join(before.aux, " "@) + " "@ + declaration
                    },
                ),
            )
            &&& after.aux.len() == 0
            &&& after.names == before.names
            &&& after.counter == before.counter
        }),
{
}

/// Whether a `u64` or `usize` occurs anywhere in `f`'s type: at the top, or at any depth inside a
/// sibling type's arguments, a map's key or value, or a tuple's elements.
pub open spec fn wide_occurs(f: FieldDef) -> bool
    decreases f, 0int,
{
    match f.field_type {
        FieldDefType::U64 | FieldDefType::Usize => true,
        FieldDefType::SiblingType(_, generics) => wide_occurs_in(generics@, generics.len() as nat),
        FieldDefType::MapOf(key, value) => wide_occurs(*key) || wide_occurs(*value),
        FieldDefType::Tuple(elements) => wide_occurs_in(elements@, elements.len() as nat),
        _ => false,
    }
}

/// Whether a `u64` or `usize` occurs anywhere in one of the first `n` of `elements`.
pub open spec fn wide_occurs_in(elements: Seq<FieldDef>, n: nat) -> bool
    decreases elements, n,
{
    if n == 0 || n > elements.len() {
        false
    } else {
        wide_occurs_in(elements, (n - 1) as nat) || wide_occurs(elements[n - 1])
    }
}

/// What a refusal can name: nothing, `u64` or `usize`.
pub open spec fn refusal_named(w: Option<Seq<char>>) -> bool {
    w is None || w == Option::Some("u64"@) || w == Option::Some("usize"@)
}

/// A width occurs in some of `elements` exactly when it occurs in one of them.
pub proof fn lemma_wide_occurs_in_some_element(elements: Seq<FieldDef>, n: nat)
    requires
        n <= elements.len(),
    ensures
        wide_occurs_in(elements, n) <==> exists|j: int| 0 <= j < n && #[trigger] wide_occurs(elements[j]),
    decreases n,
{
    if n > 0 {
        lemma_wide_occurs_in_some_element(elements, (n - 1) as nat);
        if wide_occurs(elements[n - 1]) {
            assert(exists|j: int| 0 <= j < n && #[trigger] wide_occurs(elements[j]));
        }
    }
}

proof fn lemma_refused_width_occurs(f: FieldDef)
    ensures
        refused_width(f) is Some <==> wide_occurs(f),
        refusal_named(refused_width(f)),
    decreases f, 0int,
{
    match f.field_type {
        FieldDefType::SiblingType(_, generics) => {
            lemma_first_refused_occurs(generics@, 0);
            lemma_wide_occurs_in_some_element(generics@, generics.len() as nat);
        },
        FieldDefType::MapOf(key, value) => {
            lemma_refused_width_occurs(*key);
            lemma_refused_width_occurs(*value);
        },
        FieldDefType::Tuple(elements) => {
            lemma_first_refused_occurs(elements@, 0);
            lemma_wide_occurs_in_some_element(elements@, elements.len() as nat);
        },
        _ => {},
    }
}

proof fn lemma_first_refused_occurs(elements: Seq<FieldDef>, i: nat)
    ensures
        first_refused(elements, i) is Some <==> exists|j: int|
            i <= j < elements.len() && #[trigger] wide_occurs(elements[j]),
        refusal_named(first_refused(elements, i)),
    decreases elements, elements.len() - i,
{
    if i < elements.len() {
        lemma_refused_width_occurs(elements[i as int]);
        lemma_first_refused_occurs(elements, i + 1);
        if wide_occurs(elements[i as int]) {
            assert(exists|j: int| i <= j < elements.len() && #[trigger] wide_occurs(elements[j]));
        }
    }
}

/// Kotlin refuses a width exactly when a `u64` or `usize` occurs anywhere in the type — at the
/// top, or inside a sibling type's arguments, a map's key or value, or a tuple's elements — and
/// what it names is always `u64` or `usize`: the first found, a map's key before its value and
/// everything else left to right.
pub proof fn lemma_refused_width_is_a_wide_occurrence(f: FieldDef)
    ensures
        refused_width(f) is Some <==> wide_occurs(f),
        refusal_named(refused_width(f)),
{
    lemma_refused_width_occurs(f);
}

/// Whether `s` ends in `?`.
pub open spec fn ends_in_question(s: Seq<char>) -> bool {
    s.len() > 0 && s.last() == '?'
}

/// The Kotlin name a reference to the Rust type `name` resolves to: the one registered for it,
/// or its own ident.
pub open spec fn resolved_name(st: KotlinView, name: Seq<char>) -> Seq<char> {
    match kotlin_name(st, name) {
        Option::Some(published) => published,
        Option::None => name,
    }
}

/// Whether a name `ft` can end its Kotlin spelling with, written bare under no list, does not end
/// in `?`: a type parameter's own name, or the name a sibling type with no type arguments
/// resolves to.
pub open spec fn bare_name_plain(st: KotlinView, ft: FieldDefType) -> bool {
    match ft {
        FieldDefType::TypeParam(name) => !ends_in_question(name@),
        FieldDefType::SiblingType(name, generics) => generics.len() != 0 || !ends_in_question(
            resolved_name(st, name@),
        ),
        _ => true,
    }
}

proof fn lemma_wrapped_ends_in_close(scalar: Seq<char>, levels: Seq<bool>, k: nat)
    requires
        0 < k <= levels.len(),
    ensures
        list_wrapped(scalar, levels, k, "List<"@, ">"@).last() == '>',
        list_wrapped(scalar, levels, k, "List<"@, ">"@).len() > 0,
{
    reveal_strlit(">");
    let wrapped = list_wrapped(scalar, levels, (k - 1) as nat, "List<"@, ">"@);
    let item = if levels[k - 1] {
        wrapped + "?"@
    } else {
        wrapped
    };
    assert(list_wrapped(scalar, levels, k, "List<"@, ">"@) == "List<"@ + item + ">"@);
}

proof fn lemma_decimal_ends_in_digit(n: nat)
    ensures
        decimal(n).len() > 0,
        decimal(n).last() != '?',
    decreases n,
{
    if n >= 10 {
        lemma_decimal_ends_in_digit(n / 10);
    }
}

proof fn lemma_scalar_not_question(ft: FieldDefType, as_number: bool)
    requires
        !(ft is SiblingType) && !(ft is Tuple) && !(ft is MapOf),
        ft matches FieldDefType::TypeParam(name) ==> !ends_in_question(name@),
    ensures
        !ends_in_question(kotlin_scalar(ft, as_number)),
{
    reveal_strlit("JsonElement");
    reveal_strlit("Boolean");
    reveal_strlit("String");
    reveal_strlit("Double");
    reveal_strlit("Float");
    reveal_strlit("UByte");
    reveal_strlit("UShort");
    reveal_strlit("UInt");
    reveal_strlit("Long");
    reveal_strlit("Byte");
    reveal_strlit("Short");
    reveal_strlit("Int");
    reveal_strlit("ObjectId");
}

proof fn lemma_base_not_question(st: KotlinView, ft: FieldDefType, levels: Seq<bool>, as_number: bool)
    requires
        levels.len() == 0 ==> bare_name_plain(st, ft),
    ensures
        !ends_in_question(kt_base(st, ft, levels, as_number).0),
    decreases ft, 0int,
{
    reveal_strlit(">");
    if levels.len() > 0 {
        match ft {
            FieldDefType::SiblingType(name, generics) => {
                if generics.len() == 1 && sequence_wrapper_name(name@) {
                    lemma_base_not_question(
                        st,
                        generics[0].field_type,
                        element_levels(generics[0], levels),
                        as_number,
                    );
                } else {
                    let class_name = match kotlin_name(st, name@) {
                        Option::Some(published) => published,
                        Option::None => name@,
                    };
                    if generics.len() == 0 {
                        lemma_wrapped_ends_in_close(class_name, levels, levels.len());
                    } else {
                        let args = kt_items(st, generics@, generics.len() as nat, ListForm::Args).0;
                        lemma_wrapped_ends_in_close(class_name + "<"@ + args + ">"@, levels, levels.len());
                    }
                }
            },
            FieldDefType::Tuple(elements) => {
                lemma_wrapped_ends_in_close(kt_tuple(st, elements@).0, levels, levels.len());
            },
            FieldDefType::MapOf(key, value) => {
                let (k, st1) = kt_typename(st, *key);
                let (v, st2) = kt_typename(st1, *value);
                lemma_wrapped_ends_in_close("Map<"@ + k + ", "@ + v + ">"@, levels, levels.len());
            },
            _ => {
                lemma_wrapped_ends_in_close(kotlin_scalar(ft, as_number), levels, levels.len());
            },
        }
    } else {
        assert(levels =~= Seq::<bool>::empty());
        match ft {
            FieldDefType::SiblingType(name, generics) => {
                if generics.len() == 1 && sequence_wrapper_name(name@) {
                    let inner = element_levels(generics[0], levels);
                    assert(inner.len() > 0);
                    lemma_base_not_question(st, generics[0].field_type, inner, as_number);
                } else {
                    if generics.len() != 0 {
                        let args = kt_items(st, generics@, generics.len() as nat, ListForm::Args).0;
                        assert((name@ + "<"@ + args + ">"@).last() == '>');
                        match kotlin_name(st, name@) {
                            Option::Some(published) => {
                                assert((published + "<"@ + args + ">"@).last() == '>');
                            },
                            Option::None => {},
                        }
                    }
                }
            },
            FieldDefType::Tuple(elements) => {
                let number = crate::kotlin::next_tuple_number(st.counter);
                lemma_decimal_ends_in_digit(number as nat);
                assert(("KotlinTuple"@ + decimal(number as nat)).last() == decimal(number as nat).last());
                assert(kt_tuple(st, elements@).0 == "KotlinTuple"@ + decimal(number as nat));
                assert(kotlin_list_wrapped(kt_tuple(st, elements@).0, levels) == kt_tuple(st, elements@).0);
            },
            FieldDefType::MapOf(key, value) => {
                let (k, st1) = kt_typename(st, *key);
                let (v, st2) = kt_typename(st1, *value);
                assert(("Map<"@ + k + ", "@ + v + ">"@).last() == '>');
            },
            _ => {
                lemma_scalar_not_question(ft, as_number);
            },
        }
    }
}

/// A Kotlin type name ends in `?` exactly when the field itself is optional — its base (a list,
/// a generic application, a map, a tuple wrapper, a scalar, or a name) never does, so long as the
/// field under no list is not spelled by a name ending in `?`: its type parameter's, or the name
/// its sibling type with no type arguments resolves to.
pub proof fn lemma_question_mark_iff_optional(st: KotlinView, f: FieldDef)
    requires
        f.array_depth == 0 ==> bare_name_plain(st, f.field_type),
    ensures
        ends_in_question(kt_typename(st, f).0) <==> optional(f),
{
    reveal_strlit("?");
    lemma_base_not_question(st, f.field_type, levels_of(f), f.as_number);
    let base = kt_base(st, f.field_type, levels_of(f), f.as_number).0;
    assert((base + "?"@).last() == '?');
}

/// Whether `t` occurs in `s`.
pub open spec fn contains_text(s: Seq<char>, t: Seq<char>) -> bool {
    exists|i: int| 0 <= i && i + t.len() <= s.len() && #[trigger] s.subrange(i, i + t.len()) == t
}

pub proof fn lemma_contains_at(s: Seq<char>, t: Seq<char>, i: int)
    requires
        0 <= i && i + t.len() <= s.len(),
        s.subrange(i, i + t.len()) == t,
    ensures
        contains_text(s, t),
{
}

pub proof fn lemma_contains_in_prefix(a: Seq<char>, b: Seq<char>, t: Seq<char>)
    requires
        contains_text(a, t),
    ensures
        contains_text(a + b, t),
{
    let i = choose|i: int| 0 <= i && i + t.len() <= a.len() && #[trigger] a.subrange(i, i + t.len()) == t;
    assert((a + b).subrange(i, i + t.len()) =~= a.subrange(i, i + t.len()));
    lemma_contains_at(a + b, t, i);
}

pub proof fn lemma_contains_self(t: Seq<char>)
    ensures
        contains_text(t, t),
{
    assert(t.subrange(0, t.len() as int) =~= t);
    lemma_contains_at(t, t, 0);
}

pub proof fn lemma_contains_in_suffix(a: Seq<char>, b: Seq<char>, t: Seq<char>)
    requires
        contains_text(b, t),
    ensures
        contains_text(a + b, t),
{
    let i = choose|i: int| 0 <= i && i + t.len() <= b.len() && #[trigger] b.subrange(i, i + t.len()) == t;
    assert((a + b).subrange(a.len() + i, a.len() + i + t.len()) =~= b.subrange(i, i + t.len()));
    lemma_contains_at(a + b, t, a.len() + i);
}

pub proof fn lemma_contains_trans(s: Seq<char>, m: Seq<char>, t: Seq<char>)
    requires
        contains_text(s, m),
        contains_text(m, t),
    ensures
        contains_text(s, t),
{
    let i = choose|i: int| 0 <= i && i + m.len() <= s.len() && #[trigger] s.subrange(i, i + m.len()) == m;
    let j = choose|j: int| 0 <= j && j + t.len() <= m.len() && #[trigger] m.subrange(j, j + t.len()) == t;
    assert(s.subrange(i + j, i + j + t.len()) =~= m.subrange(j, j + t.len()));
    lemma_contains_at(s, t, i + j);
}

/// If `s` holds `a` followed by `b`, it holds `a` followed by any beginning of `b`.
pub proof fn lemma_contains_shorter(s: Seq<char>, a: Seq<char>, b: Seq<char>, p: Seq<char>)
    requires
        contains_text(s, a + b),
        p.len() <= b.len(),
        b.subrange(0, p.len() as int) == p,
    ensures
        contains_text(s, a + p),
{
    let i = choose|i: int| 0 <= i && i + (a + b).len() <= s.len() && #[trigger] s.subrange(i, i + (a + b).len()) == a + b;
    assert(s.subrange(i, i + (a + p).len()) =~= a + p) by {
        assert forall|k: int| 0 <= k < (a + p).len() implies s.subrange(i, i + (a + p).len())[k] == (a + p)[k] by {
            assert(s.subrange(i, i + (a + b).len())[k] == (a + b)[k]);
            if k >= a.len() {
                assert(b.subrange(0, p.len() as int)[k - a.len()] == b[k - a.len()]);
            }
        }
    }
    lemma_contains_at(s, a + p, i);
}

/// Each part of a joined list occurs in the joined text.
pub proof fn lemma_join_holds_part(parts: Seq<Seq<char>>, sep: Seq<char>, i: int)
    requires
        0 <= i < parts.len(),
    ensures
        contains_text(join(parts, sep), parts[i]),
    decreases parts.len(),
{
    if parts.len() == 1 {
        lemma_contains_self(parts[0]);
    } else {
        let front = join(parts.drop_last(), sep);
        if i == parts.len() - 1 {
            lemma_contains_self(parts.last());
            lemma_contains_in_suffix(front + sep, parts.last(), parts[i]);
        } else {
            lemma_join_holds_part(parts.drop_last(), sep, i);
            assert(parts.drop_last()[i] == parts[i]);
            lemma_contains_in_prefix(front, sep, parts[i]);
            lemma_contains_in_prefix(front + sep, parts.last(), parts[i]);
        }
    }
}

/// The declaration a tuple wrapper queues holds its `data class` over one slot per element and
/// the `KSerializer` writing it as a JSON array.
proof fn lemma_wrapper_text_holds(
    serializer: Seq<char>,
    wrapper: Seq<char>,
    params: Seq<char>,
    encode: Seq<char>,
    decode: Seq<char>,
)
    ensures
        contains_text(
            tuple_wrapper_text(serializer, wrapper, params, encode, decode),
            "data class "@ + wrapper + "("@ + params + ")"@,
        ),
        contains_text(tuple_wrapper_text(serializer, wrapper, params, encode, decode), "buildJsonArray { "@),
{
    reveal_strlit("@Serializable(with = ");
    reveal_strlit("::class) data class ");
    reveal_strlit("::class) ");
    reveal_strlit("data class ");
    reveal_strlit("(");
    reveal_strlit(")");
    reveal_strlit(") object ");
    reveal_strlit("buildJsonArray { ");
    reveal_strlit(") { val output = encoder as JsonEncoder; output.encodeJsonElement(buildJsonArray { ");
    let p0 = "@Serializable(with = "@ + serializer;
    let x = p0 + "::class) data class "@ + wrapper + "("@ + params + ") object "@;
    let t = "data class "@ + wrapper + "("@ + params + ")"@;
    let k: int = p0.len() + 9int;
    assert(x.subrange(k, k + t.len()) =~= t);
    lemma_contains_at(x, t, k);
    let y = x + serializer + " : KSerializer<"@ + wrapper
        + "> { override val descriptor: SerialDescriptor = buildClassSerialDescriptor(\""@ + wrapper
        + "\"); override fun serialize(encoder: Encoder, value: "@ + wrapper;
    let lit = ") { val output = encoder as JsonEncoder; output.encodeJsonElement(buildJsonArray { "@;
    let z = y + lit;
    let b = "buildJsonArray { "@;
    assert(z.subrange(z.len() - b.len(), z.len() as int) =~= b);
    lemma_contains_at(z, b, z.len() - b.len());
    let rest1 = serializer + " : KSerializer<"@ + wrapper
        + "> { override val descriptor: SerialDescriptor = buildClassSerialDescriptor(\""@ + wrapper
        + "\"); override fun serialize(encoder: Encoder, value: "@ + wrapper + lit + encode
        + " }) }; override fun deserialize(decoder: Decoder): "@ + wrapper
        + " { val input = decoder as JsonDecoder; val array = input.decodeJsonElement().jsonArray; return "@
        + wrapper + "("@ + decode + ") } }"@;
    let full = tuple_wrapper_text(serializer, wrapper, params, encode, decode);
    let rest2 = encode + " }) }; override fun deserialize(decoder: Decoder): "@ + wrapper
        + " { val input = decoder as JsonDecoder; val array = input.decodeJsonElement().jsonArray; return "@
        + wrapper + "("@ + decode + ") } }"@;
    assert(full =~= x + rest1);
    assert(full =~= z + rest2);
    lemma_contains_in_prefix(x, rest1, t);
    lemma_contains_in_prefix(z, rest2, b);
}

/// A tuple renders as the wrapper `KotlinTuple{n}`, `n` the number after the last one handed out,
/// and the last declaration queued is its own: its `data class KotlinTuple{n}(val slot0: …, …)`
/// and the `KSerializer` writing it through `buildJsonArray`. When no element holds a tuple, that
/// declaration is the only one queued and the counter moves on by exactly one.
pub proof fn lemma_tuple_wrapper_declaration(st: KotlinView, elements: Seq<FieldDef>)
    ensures
        ({
            let number = crate::kotlin::next_tuple_number(st.counter);
            let wrapper = "KotlinTuple"@ + decimal(number as nat);
            let numbered = KotlinView { names: st.names, aux: st.aux, counter: number };
            let params = kt_items(numbered, elements, elements.len() as nat, ListForm::Params).0;
            let (name, after) = kt_tuple(st, elements);
            &&& name == wrapper
            &&& after.aux.len() > 0
            &&& contains_text(after.aux.last(), "data class "@ + wrapper + "("@ + params + ")"@)
            &&& contains_text(after.aux.last(), "buildJsonArray { "@)
            &&& all_tuple_free(elements, elements.len() as nat) ==> {
                &&& after.aux == st.aux.push(after.aux.last())
                &&& after.counter == number
                &&& params == kt_items(st, elements, elements.len() as nat, ListForm::Params).0
            }
        }),
{
    let n = elements.len() as nat;
    let number = crate::kotlin::next_tuple_number(st.counter);
    let wrapper = "KotlinTuple"@ + decimal(number as nat);
    let st1 = KotlinView { names: st.names, aux: st.aux, counter: number };
    let (params, st2) = kt_items(st1, elements, n, ListForm::Params);
    let (encode, st3) = kt_items(st2, elements, n, ListForm::Encode);
    let (decode, st4) = kt_items(st3, elements, n, ListForm::Decode);
    let declaration = tuple_wrapper_text(wrapper + "Serializer"@, wrapper, params, encode, decode);
    lemma_wrapper_text_holds(wrapper + "Serializer"@, wrapper, params, encode, decode);
    assert(kt_tuple(st, elements).1.aux == st4.aux.push(declaration));
    if all_tuple_free(elements, n) {
        lemma_items_stable(st1, st, elements, n, ListForm::Params);
        lemma_items_stable(st2, st, elements, n, ListForm::Encode);
        lemma_items_stable(st3, st, elements, n, ListForm::Decode);
    }
}

proof fn lemma_wrapper_holds_decode(serializer_name: Seq<char>, wrapper_name: Seq<char>, params: Seq<char>, encode_entries: Seq<char>, decode_entries: Seq<char>)
    ensures
        contains_text(tuple_wrapper_text(serializer_name, wrapper_name, params, encode_entries, decode_entries), decode_entries),
{
    reveal_strlit(" : KSerializer<");
    reveal_strlit(" { val input = decoder as JsonDecoder; val array = input.decodeJsonElement().jsonArray; return ");
    reveal_strlit(" }) }; override fun deserialize(decoder: Decoder): ");
    reveal_strlit("(");
    reveal_strlit(") object ");
    reveal_strlit(") { val output = encoder as JsonEncoder; output.encodeJsonElement(buildJsonArray { ");
    reveal_strlit(") } }");
    reveal_strlit("::class) data class ");
    reveal_strlit("> { override val descriptor: SerialDescriptor = buildClassSerialDescriptor(\"");
    reveal_strlit("@Serializable(with = ");
    reveal_strlit("\"); override fun serialize(encoder: Encoder, value: ");
    let t = decode_entries;
    let q0 = "@Serializable(with = "@ + serializer_name + "::class) data class "@ + wrapper_name + "("@ + params + ") object "@ + serializer_name + " : KSerializer<"@ + wrapper_name + "> { override val descriptor: SerialDescriptor = buildClassSerialDescriptor(\""@ + wrapper_name + "\"); override fun serialize(encoder: Encoder, value: "@ + wrapper_name + ") { val output = encoder as JsonEncoder; output.encodeJsonElement(buildJsonArray { "@ + encode_entries + " }) }; override fun deserialize(decoder: Decoder): "@ + wrapper_name + " { val input = decoder as JsonDecoder; val array = input.decodeJsonElement().jsonArray; return "@ + wrapper_name + "("@;
    let q = q0 + decode_entries;
    assert(q.subrange(q0.len() as int, q0.len() as int + t.len()) =~= t);
    lemma_contains_at(q, t, q0.len() as int);
    lemma_contains_in_prefix(q, ") } }"@, t);
    let q = q + ") } }"@;
    assert(q == tuple_wrapper_text(serializer_name, wrapper_name, params, encode_entries, decode_entries));
}

proof fn lemma_decode_piece_holds_slot(st: KotlinView, elements: Seq<FieldDef>, n: nat, i: int)
    requires
        0 <= i < n <= elements.len(),
    ensures
        contains_text(kt_items(st, elements, n, ListForm::Decode).0, ", array["@ + decimal(i as nat) + "])"@),
    decreases n,
{
    let t = ", array["@ + decimal(i as nat) + "])"@;
    let (before, st1) = kt_items(st, elements, (n - 1) as nat, ListForm::Decode);
    if i == n - 1 {
        let ty = kt_typename(st1, elements[n - 1]).0;
        let piece = crate::kotlin::form_piece(ListForm::Decode, (n - 1) as nat, ty);
        let front = "input.json.decodeFromJsonElement("@ + crate::kotlin::serializer_text(ty);
        assert(piece == front + ", array["@ + decimal(i as nat) + "])"@);
        assert(piece.subrange(front.len() as int, front.len() + t.len() as int) =~= t);
        lemma_contains_at(piece, t, front.len() as int);
        if n > 1 {
            lemma_contains_in_suffix(before + crate::kotlin::form_separator(ListForm::Decode), piece, t);
        }
    } else {
        lemma_decode_piece_holds_slot(st, elements, (n - 1) as nat, i);
        let ty = kt_typename(st1, elements[n - 1]).0;
        let piece = crate::kotlin::form_piece(ListForm::Decode, (n - 1) as nat, ty);
        let sep = crate::kotlin::form_separator(ListForm::Decode);
        lemma_contains_in_prefix(before, sep, t);
        lemma_contains_in_prefix(before + sep, piece, t);
    }
}

/// A tuple wrapper's deserializer reads each slot from its own place in the JSON array: for
/// every slot `i`, the declaration the tuple queues reads `array[i]`.
pub proof fn lemma_tuple_slots_read_in_order(st: KotlinView, elements: Seq<FieldDef>)
    ensures
        forall|i: int|
            0 <= i < elements.len() ==> #[trigger] contains_text(
                kt_tuple(st, elements).1.aux.last(),
                ", array["@ + decimal(i as nat) + "])"@,
            ),
{
    let n = elements.len() as nat;
    let number = crate::kotlin::next_tuple_number(st.counter);
    let wrapper = "KotlinTuple"@ + decimal(number as nat);
    let st1 = KotlinView { names: st.names, aux: st.aux, counter: number };
    let (params, st2) = kt_items(st1, elements, n, ListForm::Params);
    let (encode, st3) = kt_items(st2, elements, n, ListForm::Encode);
    let (decode, st4) = kt_items(st3, elements, n, ListForm::Decode);
    let declaration = tuple_wrapper_text(wrapper + "Serializer"@, wrapper, params, encode, decode);
    assert(kt_tuple(st, elements).1.aux.last() == declaration);
    lemma_wrapper_holds_decode(wrapper + "Serializer"@, wrapper, params, encode, decode);
    assert forall|i: int| 0 <= i < elements.len() implies #[trigger] contains_text(
        kt_tuple(st, elements).1.aux.last(),
        ", array["@ + decimal(i as nat) + "])"@,
    ) by {
        lemma_decode_piece_holds_slot(st3, elements, n, i);
        lemma_contains_trans(declaration, decode, ", array["@ + decimal(i as nat) + "])"@);
    }
}

proof fn lemma_external_body_holds_arms(arms: Seq<char>)
    ensures
        contains_text(external_deserialize_body_text(arms), arms),
{
    reveal_strlit(" else -> error(\"unknown tag \" + tag) }");
    reveal_strlit("val obj = input.decodeJsonElement().jsonObject; val (tag, data) = obj.entries.single(); return when (tag) { ");
    let t = arms;
    let q0 = "val obj = input.decodeJsonElement().jsonObject; val (tag, data) = obj.entries.single(); return when (tag) { "@;
    let q = q0 + arms;
    assert(q.subrange(q0.len() as int, q0.len() as int + t.len()) =~= t);
    lemma_contains_at(q, t, q0.len() as int);
    lemma_contains_in_prefix(q, " else -> error(\"unknown tag \" + tag) }"@, t);
    let q = q + " else -> error(\"unknown tag \" + tag) }"@;
    assert(q == external_deserialize_body_text(arms));
}

proof fn lemma_adjacent_body_holds_arms(tag_key: Seq<char>, content: Seq<char>, arms: Seq<char>)
    ensures
        contains_text(adjacent_deserialize_body_text(tag_key, content, arms), arms),
{
    reveal_strlit(" else -> error(\"unknown tag \" + tag) }");
    reveal_strlit("\").jsonPrimitive.content; val data = obj[\"");
    reveal_strlit("\"]; return when (tag) { ");
    reveal_strlit("val obj = input.decodeJsonElement().jsonObject; val tag = obj.getValue(\"");
    let t = arms;
    let q0 = "val obj = input.decodeJsonElement().jsonObject; val tag = obj.getValue(\""@ + tag_key + "\").jsonPrimitive.content; val data = obj[\""@ + content + "\"]; return when (tag) { "@;
    let q = q0 + arms;
    assert(q.subrange(q0.len() as int, q0.len() as int + t.len()) =~= t);
    lemma_contains_at(q, t, q0.len() as int);
    lemma_contains_in_prefix(q, " else -> error(\"unknown tag \" + tag) }"@, t);
    let q = q + " else -> error(\"unknown tag \" + tag) }"@;
    assert(q == adjacent_deserialize_body_text(tag_key, content, arms));
}

proof fn lemma_serializer_holds_body(serializer_name: Seq<char>, export_name: Seq<char>, generic_params: Seq<char>, arms: Seq<char>, deserialize_body: Seq<char>)
    ensures
        contains_text(dispatched_serializer_text(serializer_name, export_name, generic_params, arms, deserialize_body), deserialize_body),
{
    reveal_strlit(" : KSerializer<");
    reveal_strlit(" { val input = decoder as JsonDecoder; ");
    reveal_strlit(" } }");
    reveal_strlit(" }) }; override fun deserialize(decoder: Decoder): ");
    reveal_strlit(") { val output = encoder as JsonEncoder; output.encodeJsonElement(when (value) { ");
    reveal_strlit("> { override val descriptor: SerialDescriptor = buildClassSerialDescriptor(\"");
    reveal_strlit("\"); override fun serialize(encoder: Encoder, value: ");
    reveal_strlit("object ");
    let t = deserialize_body;
    let q0 = "object "@ + serializer_name + " : KSerializer<"@ + export_name + generic_params + "> { override val descriptor: SerialDescriptor = buildClassSerialDescriptor(\""@ + export_name + "\"); override fun serialize(encoder: Encoder, value: "@ + export_name + generic_params + ") { val output = encoder as JsonEncoder; output.encodeJsonElement(when (value) { "@ + arms + " }) }; override fun deserialize(decoder: Decoder): "@ + export_name + generic_params + " { val input = decoder as JsonDecoder; "@;
    let q = q0 + deserialize_body;
    assert(q.subrange(q0.len() as int, q0.len() as int + t.len()) =~= t);
    lemma_contains_at(q, t, q0.len() as int);
    lemma_contains_in_prefix(q, " } }"@, t);
    let q = q + " } }"@;
    assert(q == dispatched_serializer_text(serializer_name, export_name, generic_params, arms, deserialize_body));
}

/// The wire tag a dispatched variant travels under: its own `rename`, or the enum's
/// `rename_all` applied to its Rust ident.
pub open spec fn variant_wire_tag(v: VariantItem, rule: RenameRule) -> Seq<char> {
    match v.rename {
        Option::Some(r) => r@,
        Option::None => variant_renamed(rule, v.ident@),
    }
}

/// The `when (tag)` arm that reads a variant back opens on its wire tag.
pub open spec fn tag_arm_opening(v: VariantItem, rule: RenameRule) -> Seq<char> {
    "\""@ + variant_wire_tag(v, rule) + "\" -> "@
}

proof fn lemma_dispatched_variant_reads_its_tag(
    st: KotlinView,
    export_name: Seq<char>,
    generic_params: Seq<char>,
    tag_key: Seq<char>,
    content: Option<Seq<char>>,
    v: VariantItem,
    variant_rule: RenameRule,
    field_rule: RenameRule,
)
    ensures
        contains_text(
            dispatched_variant(st, export_name, generic_params, tag_key, content, v, variant_rule, field_rule).2,
            tag_arm_opening(v, variant_rule),
        ),
{
    reveal(dispatched_variant);
    let t = tag_arm_opening(v, variant_rule);
    let arm = dispatched_variant(st, export_name, generic_params, tag_key, content, v, variant_rule, field_rule).2;
    lemma_contains_self(t);
    assert(arm == t + arm.subrange(t.len() as int, arm.len() as int));
    lemma_contains_in_prefix(t, arm.subrange(t.len() as int, arm.len() as int), t);
}

proof fn lemma_dispatched_parts_read_their_tags(
    st: KotlinView,
    export_name: Seq<char>,
    generic_params: Seq<char>,
    tag_key: Seq<char>,
    content: Option<Seq<char>>,
    variants: Seq<VariantItem>,
    n: nat,
    variant_rule: RenameRule,
    field_rule: RenameRule,
)
    requires
        n <= variants.len(),
    ensures
        ({
            let arms = dispatched_parts(st, export_name, generic_params, tag_key, content, variants, n, variant_rule, field_rule).2;
            &&& arms.len() == n
            &&& forall|i: int| 0 <= i < n ==> #[trigger] contains_text(arms[i], tag_arm_opening(variants[i], variant_rule))
        }),
    decreases n,
{
    if n > 0 {
        lemma_dispatched_parts_read_their_tags(st, export_name, generic_params, tag_key, content, variants, (n - 1) as nat, variant_rule, field_rule);
        let st1 = dispatched_parts(st, export_name, generic_params, tag_key, content, variants, (n - 1) as nat, variant_rule, field_rule).3;
        lemma_dispatched_variant_reads_its_tag(st1, export_name, generic_params, tag_key, content, variants[n - 1], variant_rule, field_rule);
    }
}

proof fn lemma_serializer_holds_arms(serializer_name: Seq<char>, export_name: Seq<char>, generic_params: Seq<char>, arms: Seq<char>, deserialize_body: Seq<char>)
    ensures
        contains_text(dispatched_serializer_text(serializer_name, export_name, generic_params, arms, deserialize_body), arms),
{
    reveal_strlit(" : KSerializer<");
    reveal_strlit(" { val input = decoder as JsonDecoder; ");
    reveal_strlit(" } }");
    reveal_strlit(" }) }; override fun deserialize(decoder: Decoder): ");
    reveal_strlit(") { val output = encoder as JsonEncoder; output.encodeJsonElement(when (value) { ");
    reveal_strlit("> { override val descriptor: SerialDescriptor = buildClassSerialDescriptor(\"");
    reveal_strlit("\"); override fun serialize(encoder: Encoder, value: ");
    reveal_strlit("object ");
    let t = arms;
    let q0 = "object "@ + serializer_name + " : KSerializer<"@ + export_name + generic_params + "> { override val descriptor: SerialDescriptor = buildClassSerialDescriptor(\""@ + export_name + "\"); override fun serialize(encoder: Encoder, value: "@ + export_name + generic_params + ") { val output = encoder as JsonEncoder; output.encodeJsonElement(when (value) { "@;
    let q = q0 + arms;
    assert(q.subrange(q0.len() as int, q0.len() as int + t.len()) =~= t);
    lemma_contains_at(q, t, q0.len() as int);
    lemma_contains_in_prefix(q, " }) }; override fun deserialize(decoder: Decoder): "@, t);
    let q = q + " }) }; override fun deserialize(decoder: Decoder): "@;
    lemma_contains_in_prefix(q, export_name, t);
    let q = q + export_name;
    lemma_contains_in_prefix(q, generic_params, t);
    let q = q + generic_params;
    lemma_contains_in_prefix(q, " { val input = decoder as JsonDecoder; "@, t);
    let q = q + " { val input = decoder as JsonDecoder; "@;
    lemma_contains_in_prefix(q, deserialize_body, t);
    let q = q + deserialize_body;
    lemma_contains_in_prefix(q, " } }"@, t);
    let q = q + " } }"@;
    assert(q == dispatched_serializer_text(serializer_name, export_name, generic_params, arms, deserialize_body));
}


/// The `when (value)` arm that writes a variant out, up to and with its wire tag: adjacently
/// tagged, the tag goes under `tag_key`; externally tagged, a unit variant is the bare tag and any
/// other is an object keyed by it.
pub open spec fn tag_write_opening(
    export_name: Seq<char>,
    v: VariantItem,
    rule: RenameRule,
    tag_key: Seq<char>,
    content: Option<Seq<char>>,
) -> Seq<char> {
    let sub = export_name + v.ident@;
    let tag = variant_wire_tag(v, rule);
    match content {
        Option::Some(_) => "is "@ + sub + " -> buildJsonObject { put(\""@ + tag_key + "\", \""@ + tag + "\""@,
        Option::None => if v.fields is Unit {
            "is "@ + sub + " -> JsonPrimitive(\""@ + tag + "\")"@
        } else {
            "is "@ + sub + " -> buildJsonObject { put(\""@ + tag + "\", "@
        },
    }
}

proof fn lemma_adjacent_arm_opens(sub: Seq<char>, tag_key: Seq<char>, tag: Seq<char>, c: Seq<char>, e: Seq<char>)
    ensures
        contains_text(adjacent_content_arm_text(sub, tag_key, tag, c, e), "is "@ + sub + " -> buildJsonObject { put(\""@ + tag_key + "\", \""@ + tag + "\""@),
        contains_text(adjacent_unit_arm_text(sub, tag_key, tag), "is "@ + sub + " -> buildJsonObject { put(\""@ + tag_key + "\", \""@ + tag + "\""@),
{
    reveal_strlit("\"");
    reveal_strlit("\"); put(\"");
    reveal_strlit("\") }");
    let t = "is "@ + sub + " -> buildJsonObject { put(\""@ + tag_key + "\", \""@ + tag + "\""@;
    let a = adjacent_content_arm_text(sub, tag_key, tag, c, e);
    assert(a.subrange(0, t.len() as int) =~= t);
    lemma_contains_at(a, t, 0);
    let b = adjacent_unit_arm_text(sub, tag_key, tag);
    assert(b.subrange(0, t.len() as int) =~= t);
    lemma_contains_at(b, t, 0);
}

proof fn lemma_external_arm_opens(sub: Seq<char>, tag: Seq<char>, e: Seq<char>)
    ensures
        contains_text(external_content_arm_text(sub, tag, e), "is "@ + sub + " -> buildJsonObject { put(\""@ + tag + "\", "@),
        contains_text(external_unit_arm_text(sub, tag), "is "@ + sub + " -> JsonPrimitive(\""@ + tag + "\")"@),
{
    let t = "is "@ + sub + " -> buildJsonObject { put(\""@ + tag + "\", "@;
    let a = external_content_arm_text(sub, tag, e);
    assert(a.subrange(0, t.len() as int) =~= t);
    lemma_contains_at(a, t, 0);
    lemma_contains_self(external_unit_arm_text(sub, tag));
}

proof fn lemma_dispatched_variant_writes_its_tag(
    st: KotlinView,
    export_name: Seq<char>,
    generic_params: Seq<char>,
    tag_key: Seq<char>,
    content: Option<Seq<char>>,
    v: VariantItem,
    variant_rule: RenameRule,
    field_rule: RenameRule,
)
    ensures
        contains_text(
            dispatched_variant(st, export_name, generic_params, tag_key, content, v, variant_rule, field_rule).1,
            tag_write_opening(export_name, v, variant_rule, tag_key, content),
        ),
{
    let sub = export_name + v.ident@;
    let tag = variant_wire_tag(v, variant_rule);
    match content {
        Option::Some(c) => {
            assert forall|e: Seq<char>| #[trigger] contains_text(
                adjacent_content_arm_text(sub, tag_key, tag, c, e),
                "is "@ + sub + " -> buildJsonObject { put(\""@ + tag_key + "\", \""@ + tag + "\""@,
            ) by {
                lemma_adjacent_arm_opens(sub, tag_key, tag, c, e);
            }
            lemma_adjacent_arm_opens(sub, tag_key, tag, c, Seq::empty());
        },
        Option::None => {
            assert forall|e: Seq<char>| #[trigger] contains_text(
                external_content_arm_text(sub, tag, e),
                "is "@ + sub + " -> buildJsonObject { put(\""@ + tag + "\", "@,
            ) by {
                lemma_external_arm_opens(sub, tag, e);
            }
            lemma_external_arm_opens(sub, tag, Seq::empty());
        },
    }
    reveal(dispatched_variant);
}

proof fn lemma_dispatched_parts_write_their_tags(
    st: KotlinView,
    export_name: Seq<char>,
    generic_params: Seq<char>,
    tag_key: Seq<char>,
    content: Option<Seq<char>>,
    variants: Seq<VariantItem>,
    n: nat,
    variant_rule: RenameRule,
    field_rule: RenameRule,
)
    requires
        n <= variants.len(),
    ensures
        ({
            let arms = dispatched_parts(st, export_name, generic_params, tag_key, content, variants, n, variant_rule, field_rule).1;
            &&& arms.len() == n
            &&& forall|i: int| 0 <= i < n ==> #[trigger] contains_text(arms[i], tag_write_opening(export_name, variants[i], variant_rule, tag_key, content))
        }),
    decreases n,
{
    if n > 0 {
        lemma_dispatched_parts_write_their_tags(st, export_name, generic_params, tag_key, content, variants, (n - 1) as nat, variant_rule, field_rule);
        let st1 = dispatched_parts(st, export_name, generic_params, tag_key, content, variants, (n - 1) as nat, variant_rule, field_rule).3;
        lemma_dispatched_variant_writes_its_tag(st1, export_name, generic_params, tag_key, content, variants[n - 1], variant_rule, field_rule);
    }
}

/// An adjacently or externally tagged enum reads back every variant under the very tag it is
/// written with: for each variant, the published text holds both the serializer arm that writes
/// the variant's subclass out under `<tag>` and the deserializer arm `"<tag>" -> `, `<tag>` being
/// the variant's own `rename` or the enum's `rename_all` applied to its ident.
pub proof fn lemma_dispatched_enum_reads_its_wire_tags(
    st: KotlinView,
    item: EnumItem,
    name_override: Option<Seq<char>>,
)
    requires
        !item.attrs.untagged,
        !(item.attrs.tag is Some && item.attrs.content is None),
        !(plain_enum_item(item) && item.attrs.tag is None && item.attrs.content is None),
    ensures
        forall|i: int|
            0 <= i < item.variants.len() ==> #[trigger] contains_text(
                enum_module(st, item, name_override).0.1,
                tag_arm_opening(item.variants@[i], variant_rule_of(item)),
            ),
        forall|i: int|
            0 <= i < item.variants.len() ==> #[trigger] contains_text(
                enum_module(st, item, name_override).0.1,
                tag_write_opening(
                    item_export_name(item.ident@, name_override),
                    item.variants@[i],
                    variant_rule_of(item),
                    tag_key_of(item),
                    opt_text(item.attrs.content),
                ),
            ),
{
    let rust_ident = item.ident@;
    let export_name = item_export_name(rust_ident, name_override);
    let st1 = registered(st, rust_ident, export_name);
    let generic_params = generic_params_text(item.generics.deep_view());
    let content = opt_text(item.attrs.content);
    let tag_key = tag_key_of(item);
    let n = item.variants.len() as nat;
    let (subclasses, serialize_arms, deserialize_arms, after) = dispatched_parts(
        st1, export_name, generic_params, tag_key, content, item.variants@, n,
        variant_rule_of(item), field_rule_of(item),
    );
    lemma_dispatched_parts_read_their_tags(st1, export_name, generic_params, tag_key, content, item.variants@, n, variant_rule_of(item), field_rule_of(item));
    lemma_dispatched_parts_write_their_tags(st1, export_name, generic_params, tag_key, content, item.variants@, n, variant_rule_of(item), field_rule_of(item));
    let arms = join(deserialize_arms, "; "@);
    let body = match content {
        Option::None => external_deserialize_body_text(arms),
        Option::Some(c) => adjacent_deserialize_body_text(tag_key, c, arms),
    };
    match content {
        Option::None => lemma_external_body_holds_arms(arms),
        Option::Some(c) => lemma_adjacent_body_holds_arms(tag_key, c, arms),
    }
    let serializer_object = dispatched_serializer_text(export_name + "Serializer"@, export_name, generic_params, join(serialize_arms, "; "@), body);
    lemma_serializer_holds_body(export_name + "Serializer"@, export_name, generic_params, join(serialize_arms, "; "@), body);
    lemma_serializer_holds_arms(export_name + "Serializer"@, export_name, generic_params, join(serialize_arms, "; "@), body);
    let front = "sealed interface "@ + export_name + generic_params + " "@ + join(subclasses, " "@) + " "@;
    let source = front + serializer_object;
    assert(dispatched_source(st1, export_name, item) == (source, after));
    assert(enum_decl(st, item, name_override) == (source, after));
    let text = enum_module(st, item, name_override).0.1;
    assert forall|i: int| 0 <= i < item.variants.len() implies #[trigger] contains_text(
        text,
        tag_arm_opening(item.variants@[i], variant_rule_of(item)),
    ) by {
        let t = tag_arm_opening(item.variants@[i], variant_rule_of(item));
        lemma_join_holds_part(deserialize_arms, "; "@, i);
        lemma_contains_trans(arms, deserialize_arms[i], t);
        lemma_contains_trans(body, arms, t);
        lemma_contains_trans(serializer_object, body, t);
        lemma_contains_in_suffix(front, serializer_object, t);
        if after.aux.len() != 0 {
            lemma_contains_in_suffix(join(after.aux, " "@) + " "@, source, t);
        }
    }
    assert forall|i: int| 0 <= i < item.variants.len() implies #[trigger] contains_text(
        text,
        tag_write_opening(export_name, item.variants@[i], variant_rule_of(item), tag_key, content),
    ) by {
        let t = tag_write_opening(export_name, item.variants@[i], variant_rule_of(item), tag_key, content);
        let written = join(serialize_arms, "; "@);
        lemma_join_holds_part(serialize_arms, "; "@, i);
        lemma_contains_trans(written, serialize_arms[i], t);
        lemma_contains_trans(serializer_object, written, t);
        lemma_contains_in_suffix(front, serializer_object, t);
        if after.aux.len() != 0 {
            lemma_contains_in_suffix(join(after.aux, " "@) + " "@, source, t);
        }
    }
}


/// How many of `fields` travel on the wire.
pub open spec fn on_wire_count(fields: Seq<ItemField>) -> nat
    decreases fields.len(),
{
    if fields.len() == 0 {
        0
    } else if fields.last().absent_from_wire {
        on_wire_count(fields.drop_last())
    } else {
        on_wire_count(fields.drop_last()) + 1
    }
}

/// Every field on the wire becomes a property, in order, and no other field does: the
/// properties number the fields on the wire, and the field `i` is the property that counts the
/// fields on the wire before it. That property keeps the field's type and Rust name, is
/// nullable exactly where the field is an `Option` or may leave its key out, and goes under the
/// field's own `rename` where it has one, whatever the container's rule; only a field without one
/// goes under the rule applied to its Rust name.
pub proof fn lemma_field_property_keeps_its_wire_name(fields: Seq<ItemField>, rule: RenameRule, i: int)
    requires
        0 <= i < fields.len(),
        !fields[i].absent_from_wire,
    ensures
        kotlin_fields(fields, rule).len() == on_wire_count(fields),
        on_wire_count(fields.take(i)) < kotlin_fields(fields, rule).len(),
        ({
            let p = kotlin_fields(fields, rule)[on_wire_count(fields.take(i)) as int];
            &&& p.def == fields[i].def
            &&& p.rust_name == fields[i].rust_name@
            &&& p.optional == (optional(fields[i].def) || fields[i].omits_key)
            &&& fields[i].rename matches Option::Some(r) ==> p.wire_name == r@
            &&& fields[i].rename is None ==> p.wire_name == field_renamed(rule, fields[i].rust_name@)
        }),
    decreases fields.len(),
{
    lemma_kotlin_fields_len(fields, rule);
    let shorter = fields.drop_last();
    lemma_kotlin_fields_len(shorter, rule);
    if i == fields.len() - 1 {
        assert(fields.take(i) =~= shorter);
    } else {
        assert(shorter[i] == fields[i]);
        assert(shorter.take(i) =~= fields.take(i));
        lemma_field_property_keeps_its_wire_name(shorter, rule, i);
    }
}

proof fn lemma_kotlin_fields_len(fields: Seq<ItemField>, rule: RenameRule)
    ensures
        kotlin_fields(fields, rule).len() == on_wire_count(fields),
    decreases fields.len(),
{
    if fields.len() > 0 {
        lemma_kotlin_fields_len(fields.drop_last(), rule);
    }
}


/// How a property's declaration opens: `@SerialName("<wire>")` where the wire name is not the
/// property's own, then `val <property>: `.
pub open spec fn property_opening(f: FieldView) -> Seq<char> {
    let prop = camel_field(f.rust_name);
    if prop == f.wire_name {
        "val "@ + prop + ": "@
    } else {
        "@SerialName(\""@ + f.wire_name + "\") val "@ + prop + ": "@
    }
}

proof fn lemma_property_text_opens(st: KotlinView, f: FieldView)
    ensures
        contains_text(property_text(st, f).0, property_opening(f)),
{
    reveal_strlit("\") ");
    reveal_strlit("val ");
    reveal_strlit("\") val ");
    let t = property_opening(f);
    let x = property_text(st, f).0;
    let prop = camel_field(f.rust_name);
    if prop == f.wire_name {
        assert(x.subrange(0, t.len() as int) =~= t);
    } else {
        assert("\") "@ + "val "@ =~= "\") val "@);
        assert(x.subrange(0, t.len() as int) =~= t);
    }
    lemma_contains_at(x, t, 0);
}

proof fn lemma_property_texts_open(st: KotlinView, fields: Seq<FieldView>, n: nat)
    requires
        n <= fields.len(),
    ensures
        property_texts(st, fields, n).0.len() == n,
        forall|j: int| 0 <= j < n ==> #[trigger] contains_text(property_texts(st, fields, n).0[j], property_opening(fields[j])),
    decreases n,
{
    if n > 0 {
        lemma_property_texts_open(st, fields, (n - 1) as nat);
        let st1 = property_texts(st, fields, (n - 1) as nat).1;
        lemma_property_text_opens(st1, fields[n - 1]);
    }
}

/// A struct's field goes on the wire under its own `rename` where it has one, whatever the
/// container's `rename_all`, and under that rule applied to its Rust name only where it has none:
/// wherever that wire name differs from the Kotlin property's name, the published data class
/// declares the property as `@SerialName("<wire>") val <property>: `.
pub proof fn lemma_struct_property_is_serial_named(
    st: KotlinView,
    item: StructItem,
    name_override: Option<Seq<char>>,
    i: int,
)
    requires
        item.fields is Named,
        0 <= i < item.fields->Named_0.len(),
        !item.fields->Named_0@[i].absent_from_wire,
        camel_field(item.fields->Named_0@[i].rust_name@) != match item.fields->Named_0@[i].rename {
            Option::Some(r) => r@,
            Option::None => field_renamed(rule_named(opt_text(item.rename_all)), item.fields->Named_0@[i].rust_name@),
        },
    ensures
        contains_text(
            struct_module(st, item, name_override).0.1,
            "@SerialName(\""@ + match item.fields->Named_0@[i].rename {
                Option::Some(r) => r@,
                Option::None => field_renamed(rule_named(opt_text(item.rename_all)), item.fields->Named_0@[i].rust_name@),
            } + "\") val "@ + camel_field(item.fields->Named_0@[i].rust_name@) + ": "@,
        ),
{
    let v = item.fields->Named_0@;
    let rule = rule_named(opt_text(item.rename_all));
    lemma_field_property_keeps_its_wire_name(v, rule, i);
    let fields = named_kotlin_fields(item.fields, rule);
    assert(fields == kotlin_fields(v, rule));
    let j = on_wire_count(v.take(i)) as int;
    let t = property_opening(fields[j]);
    let rust_ident = item.ident@;
    let export_name = item_export_name(rust_ident, name_override);
    let st1 = registered(st, rust_ident, export_name);
    let generic_params = generic_params_text(item.generics.deep_view());
    let alias = ident_typealias_text(rust_ident, export_name, generic_params);
    let (declared, st2) = property_texts(st1, fields, fields.len());
    lemma_property_texts_open(st1, fields, fields.len());
    let params = join(declared, ", "@);
    assert(params_text(st1, fields) == (params, st2));
    lemma_join_holds_part(declared, ", "@, j);
    lemma_contains_trans(params, declared[j], t);
    let open_paren = "data class "@ + export_name + generic_params + "("@;
    lemma_contains_in_suffix(open_paren, params, t);
    lemma_contains_in_prefix(open_paren + params, ")"@, t);
    let body = open_paren + params + ")"@;
    lemma_contains_in_suffix("@Serializable "@, body, t);
    lemma_contains_in_prefix("@Serializable "@ + body, alias, t);
    let source = "@Serializable "@ + body + alias;
    assert(named_struct_decl(st, item, name_override) == (source, st2));
    if st2.aux.len() != 0 {
        lemma_contains_in_suffix(join(st2.aux, " "@) + " "@, source, t);
    }
}

} // verus!
