//! A service schema as plain values: the service's ident and, per operation, its names, the
//! message it receives and what it answers, with each referenced Rust type read into a
//! [`FieldDef`] beside the TypeScript, Zod and Dart spellings the other emitters give it.

use crate::field_def::{FieldDef, unit_type};
use crate::rename_rule::{RenameRule, pascal_field};
use vstd::prelude::*;

verus! {

/// A Rust type an operation names, read through the field walk, with the names the TypeScript,
/// Zod, Dart and Swift emitters publish it under.
#[derive(Debug)]
pub struct TypeRef {
    pub def: FieldDef,
    pub typescript: String,
    pub zod: String,
    pub dart: String,
    /// The Swift reference to it, under the name hint the Swift client gives the place it stands
    /// (`{Service}{Operation}Success`, `{Service}{Operation}Error`, or `Req` for a message).
    pub swift: String,
    /// The declarations that Swift reference needs beside it (a keyed wrapper, an unkeyed tuple
    /// struct), published after the Swift client's actor.
    pub swift_aux: Vec<String>,
}

/// The message an operation receives.
#[derive(Debug)]
pub enum OperationInputs {
    /// The operation takes no arguments.
    Empty,
    /// The operation takes an argument list the macro gathers into a message type of its own.
    Generated,
    /// The operation takes one argument of a type it names.
    Named(TypeRef),
}

/// What an operation answers.
#[derive(Debug)]
pub enum OperationOutcome {
    /// Nothing: the call is a notification.
    OneWay,
    /// A reply: the declared success or the declared error.
    Reply { error: TypeRef, success: TypeRef },
}

/// The message type the macro declared for an operation that named none.
#[derive(Debug)]
pub struct GeneratedMessage {
    pub ident: String,
    /// A reference to it by its bare ident, read through the field walk.
    pub def: FieldDef,
    /// The Zod schema published for it.
    pub zod: String,
    /// The Swift reference to it under the hint `Req`, and the declarations it needs beside it.
    pub swift: String,
    pub swift_aux: Vec<String>,
}

#[derive(Debug)]
pub struct OperationDef {
    /// The operation's Rust ident, `snake_case`.
    pub ident: String,
    /// The name the operation travels under on the wire.
    pub wire_name: String,
    /// The method name the TypeScript-shaped clients give it, `camelCase`.
    pub ts_name: String,
    pub inputs: OperationInputs,
    pub outcome: OperationOutcome,
    /// The message type declared for an operation that named none.
    pub generated_message: Option<GeneratedMessage>,
    /// The Dart type a successful call answers with, or `None` when the success carries no value.
    pub dart_success: Option<String>,
}

#[derive(Debug)]
pub struct ServiceDef {
    /// The service's Rust ident, `PascalCase`.
    pub ident: String,
    pub operations: Vec<OperationDef>,
}

/// One argument bound to a header or a multipart part.
#[derive(Debug)]
pub struct Binding {
    /// The argument's Rust ident, `snake_case`.
    pub parameter: String,
    pub ty: TypeRef,
}

/// The arguments of an operation bound to a request header or to a multipart part, in
/// declaration order.
#[derive(Debug)]
pub struct HttpShape {
    pub header_in: Vec<Binding>,
    pub multipart_parts: Vec<Binding>,
}

/// Whether the operation answers with a reply.
pub open spec fn is_reply(op: OperationDef) -> bool {
    op.outcome is Reply
}

/// The sealed result type a reply operation answers with: the service's name, then the
/// operation's in `PascalCase`, then `Result`; `None` for a one-way operation.
pub open spec fn result_name_of(named: Seq<char>, op: OperationDef) -> Option<Seq<char>> {
    if is_reply(op) {
        Option::Some(named + pascal_field(op.ident@) + "Result"@)
    } else {
        Option::None
    }
}

/// The generated record every fault of the service travels as.
pub open spec fn fault_fields_text(named: Seq<char>) -> Seq<char> {
    named + "FaultFields"@
}

/// Whether the reply's success is the unit type `()`.
pub open spec fn unit_success(op: OperationDef) -> bool {
    match op.outcome {
        OperationOutcome::Reply { success, .. } => unit_type(success.def),
        OperationOutcome::OneWay => false,
    }
}

impl OperationDef {
    pub fn is_one_way(&self) -> (r: bool)
        ensures
            r == !is_reply(*self),
    {
        match &self.outcome {
            OperationOutcome::OneWay => true,
            OperationOutcome::Reply { .. } => false,
        }
    }
}

/// [`result_name_of`].
pub fn result_name(named: &str, operation: &OperationDef) -> (r: Option<String>)
    ensures
        match r {
            Option::Some(s) => result_name_of(named@, *operation) == Option::Some(s@),
            Option::None => result_name_of(named@, *operation) == Option::<Seq<char>>::None,
        },
{
    match &operation.outcome {
        OperationOutcome::OneWay => Option::None,
        OperationOutcome::Reply { .. } => {
            let mut r = String::from_str(named);
            let pascal = RenameRule::PascalCase.apply_to_field(operation.ident.as_str());
            r.append(pascal.as_str());
            r.append("Result");
            Option::Some(r)
        },
    }
}

/// [`fault_fields_text`].
pub fn fault_fields_name(named: &str) -> (r: String)
    ensures
        r@ == fault_fields_text(named@),
{
    let mut r = String::from_str(named);
    r.append("FaultFields");
    r
}

} // verus!
