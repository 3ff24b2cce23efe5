//! How the client and the service name the one message an operation receives, the arguments a
//! bound header or part adds after it, and how a raw wire string is coerced back into a value.
//!
//! Both sides take the message as a single object, so which type that is, and which schema
//! validates it, is read off the operation once rather than decided again on each side.

use crate::field_def::{FieldDef, FieldDefType};
use crate::rename_rule::{RenameRule, field_renamed, field_rule_applies};
use crate::service::{Binding, HttpShape, OperationDef, OperationInputs};
use vstd::prelude::*;

verus! {

/// The message's TypeScript name: the type the operation named, the one the macro declared for
/// an operation that named none, or `unknown` when there is neither.
pub open spec fn typename_text(op: OperationDef) -> Seq<char> {
    match op.inputs {
        OperationInputs::Named(declared) => declared.typescript@,
        _ => match op.generated_message {
            Option::Some(g) => g.ident@,
            Option::None => "unknown"@,
        },
    }
}

/// The schema the message validates against, or nothing when there is no message type.
pub open spec fn schema_text(op: OperationDef) -> Seq<char> {
    match op.inputs {
        OperationInputs::Named(declared) => declared.zod@,
        _ => match op.generated_message {
            Option::Some(g) => g.zod@,
            Option::None => Seq::empty(),
        },
    }
}

/// The schema the message validates against: the one published for the type it names, or for
/// the type the macro declared for an operation that named none.
pub fn schema(operation: &OperationDef) -> (r: String)
    ensures
        r@ == schema_text(*operation),
{
    match &operation.inputs {
        OperationInputs::Named(declared) => declared.zod.clone(),
        _ => match &operation.generated_message {
            Option::Some(g) => g.zod.clone(),
            Option::None => String::new(),
        },
    }
}

/// The message's TypeScript name: see [`typename_text`].
pub fn typename(operation: &OperationDef) -> (r: String)
    ensures
        r@ == typename_text(*operation),
{
    match &operation.inputs {
        OperationInputs::Named(declared) => declared.typescript.clone(),
        _ => match &operation.generated_message {
            Option::Some(g) => g.ident.clone(),
            Option::None => String::from_str("unknown"),
        },
    }
}

/// One bound argument as the client's method and the implementation's both declare it: its name
/// in `camelCase` and its TypeScript type.
pub open spec fn binding_param(b: Binding) -> (Seq<char>, Seq<char>) {
    (field_renamed(RenameRule::CamelCase, b.parameter@), b.ty.typescript@)
}

/// Whether every binding's name has a first character `camelCase` can lower.
pub open spec fn bindings_nameable(bindings: Seq<Binding>) -> bool {
    forall|i: int|
        0 <= i < bindings.len() ==> field_rule_applies(
            RenameRule::CamelCase,
            #[trigger] bindings[i].parameter@,
        )
}

/// The bound arguments of `shape`: every bound header, then every bound part.
pub open spec fn binding_params_of(shape: HttpShape) -> Seq<(Seq<char>, Seq<char>)> {
    shape.header_in@.map_values(|b: Binding| binding_param(b)) + shape.multipart_parts@.map_values(
        |b: Binding| binding_param(b),
    )
}

fn push_binding_params(params: &mut Vec<(String, String)>, bindings: &Vec<Binding>)
    requires
        bindings_nameable(bindings@),
    ensures
        final(params).deep_view() == old(params).deep_view() + bindings@.map_values(
            |b: Binding| binding_param(b),
        ),
{
    let ghost start = params.deep_view();
    let mut i: usize = 0;
    while i < bindings.len()
        invariant
            i <= bindings.len(),
            bindings_nameable(bindings@),
            params.deep_view() =~= start + bindings@.take(i as int).map_values(
                |b: Binding| binding_param(b),
            ),
        decreases bindings.len() - i,
    {
        let binding = &bindings[i];
        assert(field_rule_applies(RenameRule::CamelCase, bindings@[i as int].parameter@));
        let name = RenameRule::CamelCase.apply_to_field(binding.parameter.as_str());
        let ty = binding.ty.typescript.clone();
        let ghost before = params.deep_view();
        params.push((name, ty));
        assert(params.deep_view() =~= before.push(binding_param(bindings@[i as int])));
        assert(bindings@.take(i + 1) =~= bindings@.take(i as int).push(bindings@[i as int]));
        i = i + 1;
    }
    assert(bindings@.take(bindings.len() as int) =~= bindings@);
}

/// The arguments a bound header and a bound part add after the message, in declaration order,
/// named and typed the same way for the client's method and the implementation's.
pub fn binding_params(shape: &HttpShape) -> (r: Vec<(String, String)>)
    requires
        bindings_nameable(shape.header_in@),
        bindings_nameable(shape.multipart_parts@),
    ensures
        r.deep_view() == binding_params_of(*shape),
{
    let mut params: Vec<(String, String)> = Vec::new();
    assert(params.deep_view() =~= Seq::<(Seq<char>, Seq<char>)>::empty());
    push_binding_params(&mut params, &shape.header_in);
    push_binding_params(&mut params, &shape.multipart_parts);
    assert(params.deep_view() =~= binding_params_of(*shape));
    params
}

/// How the innermost value of a raw wire string reads back.
#[derive(Clone, Copy, Debug, PartialEq, Eq, Structural)]
pub enum ScalarKind {
    Bool,
    Number,
    Text,
}

/// The expression coercing the raw text `raw` into a scalar of `kind`.
pub open spec fn scalar_decode_text(kind: ScalarKind, raw: Seq<char>, prefix: Seq<char>) -> Seq<
    char,
> {
    match kind {
        ScalarKind::Bool => "("@ + raw + " === \"true\" ? true : "@ + raw + " === \"false\" ? false : "@
            + raw + ")"@,
        ScalarKind::Number => prefix + "HttpCoerceNumber("@ + raw + ")"@,
        ScalarKind::Text => raw,
    }
}

/// The expression coercing `raw` into a value `depth` lists deep over a scalar of `kind`: each
/// list splits its text on `,` and coerces every piece the same way one level down.
pub open spec fn decode_ts_text(depth: nat, kind: ScalarKind, raw: Seq<char>, prefix: Seq<char>) -> Seq<
    char,
>
    decreases depth,
{
    if depth == 0 {
        scalar_decode_text(kind, raw, prefix)
    } else {
        "("@ + raw + ").split(\",\").map((piece: string) => "@ + decode_ts_text(
            (depth - 1) as nat,
            kind,
            "piece"@,
            prefix,
        ) + ")"@
    }
}

/// Coerces a raw wire string into the value it stands for, the same way for a query, a path, a
/// header and a part: a list (`depth` levels of `Vec`, an `Option` around any of them read
/// through) splits on `,`; otherwise a boolean text, a numeric coercion, or the text itself.
pub fn decode_ts_expr(depth: usize, kind: ScalarKind, raw: &str, prefix: &str) -> (r: String)
    ensures
        r@ == decode_ts_text(depth as nat, kind, raw@, prefix@),
    decreases depth,
{
    if depth > 0 {
        let element = decode_ts_expr(depth - 1, kind, "piece", prefix);
        let mut r = String::from_str("(");
        r.append(raw);
        r.append(").split(\",\").map((piece: string) => ");
        r.append(element.as_str());
        r.append(")");
        return r;
    }
    match kind {
        ScalarKind::Bool => {
            let mut r = String::from_str("(");
            r.append(raw);
            r.append(" === \"true\" ? true : ");
            r.append(raw);
            r.append(" === \"false\" ? false : ");
            r.append(raw);
            r.append(")");
            r
        },
        ScalarKind::Number => {
            let mut r = String::from_str(prefix);
            r.append("HttpCoerceNumber(");
            r.append(raw);
            r.append(")");
            r
        },
        ScalarKind::Text => String::from_str(raw),
    }
}

/// How the scalar a field's lists end in reads back from raw text: a boolean, a number, or the
/// text itself for everything else.
pub open spec fn scalar_kind_of(ft: FieldDefType) -> ScalarKind {
    match ft {
        FieldDefType::Boolean | FieldDefType::BooleanLiteral(_) => ScalarKind::Bool,
        FieldDefType::NumberLiteral(_) | FieldDefType::F32 | FieldDefType::F64 | FieldDefType::U8
        | FieldDefType::U16 | FieldDefType::U32 | FieldDefType::U64 | FieldDefType::I8
        | FieldDefType::I16 | FieldDefType::I32 | FieldDefType::I64 | FieldDefType::Usize
        | FieldDefType::Isize => ScalarKind::Number,
        _ => ScalarKind::Text,
    }
}

/// [`scalar_kind_of`].
pub fn scalar_kind(ft: &FieldDefType) -> (r: ScalarKind)
    ensures
        r == scalar_kind_of(*ft),
{
    match ft {
        FieldDefType::Boolean | FieldDefType::BooleanLiteral(_) => ScalarKind::Bool,
        FieldDefType::NumberLiteral(_) | FieldDefType::F32 | FieldDefType::F64 | FieldDefType::U8
        | FieldDefType::U16 | FieldDefType::U32 | FieldDefType::U64 | FieldDefType::I8
        | FieldDefType::I16 | FieldDefType::I32 | FieldDefType::I64 | FieldDefType::Usize
        | FieldDefType::Isize => ScalarKind::Number,
        _ => ScalarKind::Text,
    }
}

/// Coerces a raw wire string into a value of the type `field` reads as: its `Vec` levels (an
/// `Option` around any of them, or around the whole, read through) and the kind of its scalar —
/// see [`decode_ts_expr`].
pub fn decode_ts_expr_of(field: &FieldDef, raw: &str, prefix: &str) -> (r: String)
    ensures
        r@ == decode_ts_text(field.array_depth as nat, scalar_kind_of(field.field_type), raw@, prefix@),
{
    let kind = scalar_kind(&field.field_type);
    decode_ts_expr(field.array_depth, kind, raw, prefix)
}

} // verus!
